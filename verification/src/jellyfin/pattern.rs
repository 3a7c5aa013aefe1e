//! Episode numbers read from file names with the configured regular
//! expressions.

use vstd::prelude::*;
use crate::jellyfin::config::EpisodeConfig;
use crate::matching::{
    compile_regex, option_view, regex_capture, regex_capture_names, regex_compile_error,
    regex_group_names, regex_named_capture, regex_valid,
};
use crate::text::{debug_quoted, debug_text, equals, owned, parse_u32, texts, u32_from_text};

verus! {

/// The name of the capture group that holds the episode number.
pub const EPISODE_GROUP: &'static str = "episode";

/// Whether a regular expression has a capture group named `episode`.
pub open spec fn has_episode_capture(pattern: Seq<char>) -> bool {
    exists|j: int|
        0 <= j < regex_capture_names(pattern).len() && #[trigger] regex_capture_names(pattern)[j]
            == Some(EPISODE_GROUP@)
}

/// Why a pattern cannot be used, if it cannot.
pub open spec fn pattern_problem(p: Seq<char>) -> Option<Seq<char>> {
    match regex_compile_error(p) {
        Some(e) => Some("invalid episode pattern "@ + debug_quoted(p) + ": "@ + e),
        None => if has_episode_capture(p) {
            None
        } else {
            Some(
                "episode pattern "@ + debug_quoted(p)
                    + " must contain a named capture group called \"episode\""@,
            )
        },
    }
}

/// The problem of the first unusable pattern, in order, if any.
pub open spec fn first_pattern_problem(ps: Seq<Seq<char>>) -> Option<Seq<char>>
    decreases ps.len(),
{
    if ps.len() == 0 {
        None
    } else {
        match first_pattern_problem(ps.drop_last()) {
            Some(e) => Some(e),
            None => pattern_problem(ps.last()),
        }
    }
}

proof fn lemma_no_problem_means_usable(ps: Seq<Seq<char>>)
    requires
        first_pattern_problem(ps) is None,
    ensures
        forall|i: int|
            0 <= i < ps.len() ==> regex_valid(#[trigger] ps[i]) && has_episode_capture(ps[i]),
    decreases ps.len(),
{
    if ps.len() > 0 {
        lemma_no_problem_means_usable(ps.drop_last());
        assert forall|i: int| 0 <= i < ps.len() implies regex_valid(#[trigger] ps[i])
            && has_episode_capture(ps[i]) by {
            if i < ps.len() - 1 {
                assert(ps[i] == ps.drop_last()[i]);
            }
        }
    }
}

/// The episode number a list of patterns reads from a file name: the first
/// pattern that matches decides; the number must be captured by its
/// `episode` group and be a valid `u32`.
pub open spec fn extraction(ps: Seq<Seq<char>>, file: Seq<char>) -> Result<Option<u32>, Seq<char>>
    decreases ps.len(),
{
    if ps.len() == 0 {
        Ok(None)
    } else {
        match regex_named_capture(ps[0], file, EPISODE_GROUP@) {
            None => extraction(ps.drop_first(), file),
            Some(None) => Err(
                "episode capture did not participate when matching file "@ + debug_quoted(file),
            ),
            Some(Some(v)) => match u32_from_text(v) {
                Ok(n) => Ok(Some(n)),
                Err(e) => Err(
                    "invalid episode number "@ + debug_quoted(v) + " in file "@ + debug_quoted(
                        file,
                    ) + ": "@ + e,
                ),
            },
        }
    }
}

/// The first pattern, in configuration order, whose regular expression
/// matches a file name decides its episode: the patterns before it, which
/// do not match, play no part, and the patterns after it are never
/// consulted. A captured number is read as a `u32`; a match whose `episode`
/// group took no part, or whose capture is not a `u32`, is refused.
pub proof fn first_matching_pattern_decides(ps: Seq<Seq<char>>, file: Seq<char>, k: int)
    requires
        0 <= k < ps.len(),
        forall|j: int| 0 <= j < k ==> regex_named_capture(#[trigger] ps[j], file, "episode"@) is None,
        regex_named_capture(ps[k], file, "episode"@) is Some,
    ensures
        regex_named_capture(ps[k], file, "episode"@) matches Some(Some(v)) ==> match u32_from_text(v) {
            Ok(n) => extraction(ps, file) == Ok::<Option<u32>, Seq<char>>(Some(n)),
            Err(_) => extraction(ps, file) is Err,
        },
        regex_named_capture(ps[k], file, "episode"@) == Some(None::<Seq<char>>) ==> extraction(
            ps,
            file,
        ) is Err,
    decreases k,
{
    reveal_strlit("episode");
    assert(EPISODE_GROUP@ == "episode"@);
    if k > 0 {
        assert(regex_named_capture(ps[0], file, "episode"@) is None);
        let rest = ps.drop_first();
        assert forall|j: int| 0 <= j < k - 1 implies regex_named_capture(
            #[trigger] rest[j],
            file,
            "episode"@,
        ) is None by {
            assert(rest[j] == ps[j + 1]);
        }
        assert(rest[k - 1] == ps[k]);
        first_matching_pattern_decides(rest, file, k - 1);
    }
}

/// A file name that no pattern matches has no episode number.
pub proof fn no_matching_pattern_means_no_episode(ps: Seq<Seq<char>>, file: Seq<char>)
    requires
        forall|j: int| 0 <= j < ps.len() ==> regex_named_capture(#[trigger] ps[j], file, "episode"@) is None,
    ensures
        extraction(ps, file) == Ok::<Option<u32>, Seq<char>>(None),
    decreases ps.len(),
{
    reveal_strlit("episode");
    assert(EPISODE_GROUP@ == "episode"@);
    if ps.len() > 0 {
        assert(regex_named_capture(ps[0], file, "episode"@) is None);
        let rest = ps.drop_first();
        assert forall|j: int| 0 <= j < rest.len() implies regex_named_capture(
            #[trigger] rest[j],
            file,
            "episode"@,
        ) is None by {
            assert(rest[j] == ps[j + 1]);
        }
        no_matching_pattern_means_no_episode(rest, file);
    }
}

/// The compiled episode patterns of a series target, in order. Every one of
/// them compiles and has an `episode` group.
#[derive(Debug)]
pub struct EpisodePatterns {
    patterns: Vec<String>,
}

impl EpisodePatterns {
    #[verifier::type_invariant]
    closed spec fn usable(self) -> bool {
        forall|i: int|
            0 <= i < self.patterns@.len() ==> regex_valid(#[trigger] self.patterns@[i]@)
                && has_episode_capture(self.patterns@[i]@)
    }

    /// The sources of the patterns.
    pub closed spec fn patterns(&self) -> Seq<Seq<char>> {
        texts(self.patterns@)
    }

    fn has_episode_group(pattern: &str) -> (r: bool)
        requires
            regex_valid(pattern@),
        ensures
            r == has_episode_capture(pattern@),
    {
        let names = regex_group_names(pattern);
        let mut j: usize = 0;
        while j < names.len()
            invariant
                j <= names@.len(),
                names@.len() == regex_capture_names(pattern@).len(),
                forall|k: int|
                    0 <= k < names@.len() ==> option_view(#[trigger] names@[k])
                        == regex_capture_names(pattern@)[k],
                forall|k: int|
                    0 <= k < j ==> #[trigger] regex_capture_names(pattern@)[k] != Some(
                        EPISODE_GROUP@,
                    ),
            decreases names@.len() - j,
        {
            match &names[j] {
                Some(name) => {
                    if equals(name.as_str(), EPISODE_GROUP) {
                        assert(option_view(names@[j as int]) == Some(EPISODE_GROUP@));
                        return true;
                    }
                },
                None => {},
            }
            assert(option_view(names@[j as int]) == regex_capture_names(pattern@)[j as int]);
            j = j + 1;
        }
        false
    }

    /// Compiles the patterns of an episode configuration. The first pattern
    /// that does not compile, or has no `episode` group, is reported.
    pub fn compile(config: &EpisodeConfig) -> (r: Result<EpisodePatterns, String>)
        ensures
            match first_pattern_problem(texts(config.patterns@)) {
                Some(e) => r matches Err(m) && m@ == e,
                None => r matches Ok(p) && p.patterns() == texts(config.patterns@),
            },
    {
        let ghost all = texts(config.patterns@);
        let mut patterns: Vec<String> = Vec::new();
        let mut i: usize = 0;
        while i < config.patterns.len()
            invariant
                i <= config.patterns@.len(),
                all == texts(config.patterns@),
                first_pattern_problem(all.take(i as int)) is None,
                texts(patterns@) == all.take(i as int),
            decreases config.patterns@.len() - i,
        {
            let value = config.patterns[i].as_str();
            proof {
                assert(all.take(i + 1).drop_last() =~= all.take(i as int));
                assert(all.take(i + 1).last() == value@);
            }
            match compile_regex(value) {
                Err(error) => {
                    let mut m = owned("invalid episode pattern ");
                    m.append(debug_text(value).as_str());
                    m.append(": ");
                    m.append(error.as_str());
                    proof {
                        lemma_first_problem_stays(all, i as int);
                    }
                    return Err(m);
                },
                Ok(()) => {},
            }
            if !Self::has_episode_group(value) {
                let mut m = owned("episode pattern ");
                m.append(debug_text(value).as_str());
                m.append(" must contain a named capture group called \"episode\"");
                proof {
                    lemma_first_problem_stays(all, i as int);
                }
                return Err(m);
            }
            patterns.push(config.patterns[i].clone());
            proof {
                assert(texts(patterns@) =~= all.take(i + 1));
            }
            i = i + 1;
        }
        proof {
            assert(all.len() == config.patterns@.len());
            assert(all.take(i as int) =~= all);
            assert(texts(patterns@) == all);
            lemma_no_problem_means_usable(all);
            assert forall|k: int| 0 <= k < patterns@.len() implies regex_valid(
                #[trigger] patterns@[k]@,
            ) && has_episode_capture(patterns@[k]@) by {
                assert(texts(patterns@)[k] == patterns@[k]@);
                assert(all[k] == patterns@[k]@);
            }
        }
        Ok(EpisodePatterns { patterns })
    }

    /// Reads the episode number of a file name: the first pattern that
    /// matches decides; `None` when none matches.
    pub fn extract(&self, file_name: &str) -> (r: Result<Option<u32>, String>)
        ensures
            match extraction(self.patterns(), file_name@) {
                Ok(n) => r == Ok::<Option<u32>, String>(n),
                Err(e) => r matches Err(m) && m@ == e,
            },
    {
        proof {
            use_type_invariant(self);
        }
        let ghost all = self.patterns();
        assert(all.skip(0) =~= all);
        let mut i: usize = 0;
        while i < self.patterns.len()
            invariant
                i <= self.patterns@.len(),
                all == texts(self.patterns@),
                extraction(all, file_name@) == extraction(all.skip(i as int), file_name@),
                forall|k: int|
                    0 <= k < self.patterns@.len() ==> regex_valid(#[trigger] self.patterns@[k]@),
            decreases self.patterns@.len() - i,
        {
            let pattern = self.patterns[i].as_str();
            proof {
                assert(all.skip(i as int)[0] == pattern@);
                assert(all.skip(i as int).drop_first() =~= all.skip(i + 1));
            }
            match regex_capture(pattern, file_name, EPISODE_GROUP) {
                None => {},
                Some(None) => {
                    let mut m = owned("episode capture did not participate when matching file ");
                    m.append(debug_text(file_name).as_str());
                    return Err(m);
                },
                Some(Some(value)) => {
                    match parse_u32(value.as_str()) {
                        Ok(episode) => {
                            return Ok(Some(episode));
                        },
                        Err(error) => {
                            let mut m = owned("invalid episode number ");
                            m.append(debug_text(value.as_str()).as_str());
                            m.append(" in file ");
                            m.append(debug_text(file_name).as_str());
                            m.append(": ");
                            m.append(error.as_str());
                            return Err(m);
                        },
                    }
                },
            }
            i = i + 1;
        }
        proof {
            assert(all.skip(i as int) =~= Seq::<Seq<char>>::empty());
        }
        Ok(None)
    }
}

proof fn lemma_first_problem_stays(all: Seq<Seq<char>>, i: int)
    requires
        0 <= i < all.len(),
        first_pattern_problem(all.take(i)) is None,
        pattern_problem(all[i]) is Some,
    ensures
        first_pattern_problem(all) == pattern_problem(all[i]),
    decreases all.len() - i,
{
    assert(all.take(i + 1).drop_last() =~= all.take(i));
    lemma_first_problem_prefix(all, i + 1);
}

proof fn lemma_first_problem_prefix(all: Seq<Seq<char>>, k: int)
    requires
        0 < k <= all.len(),
        first_pattern_problem(all.take(k)) is Some,
    ensures
        first_pattern_problem(all) == first_pattern_problem(all.take(k)),
    decreases all.len() - k,
{
    if k == all.len() {
        assert(all.take(k) =~= all);
    } else {
        assert(all.take(k + 1).drop_last() =~= all.take(k));
        lemma_first_problem_prefix(all, k + 1);
    }
}

/// Patterns that compile can all be used to read episode numbers: each one
/// compiles and names an `episode` group.
pub proof fn compiled_patterns_are_usable(ps: Seq<Seq<char>>)
    requires
        first_pattern_problem(ps) is None,
    ensures
        forall|i: int|
            0 <= i < ps.len() ==> regex_valid(#[trigger] ps[i]) && has_episode_capture(ps[i]),
{
    lemma_no_problem_means_usable(ps);
}

} // verus!
