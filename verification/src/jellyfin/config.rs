//! The Jellyfin mount targets and the rules a configuration must follow.
//! Whether the configured directories exist is probed by the app and handed
//! in.

use vstd::prelude::*;
use crate::fs::{file_name, join_path, joined_path, path_file_name, relative_path, relative_to};
use crate::jellyfin::pattern::{first_pattern_problem, EpisodePatterns};
use crate::matching::{compile_glob, glob_compile_error, glob_match, glob_matches, glob_valid};
use crate::text::{debug_quoted, debug_text, equals, owned, texts, trim, trimmed};

verus! {

/// What a target holds.
#[derive(Clone, Copy, Debug, PartialEq, Eq, Structural)]
pub enum TargetType {
    Series,
    Movies,
}

/// The kind of series a target holds.
#[derive(Clone, Copy, Debug, PartialEq, Eq, Structural)]
pub enum SeriesCategory {
    Anime,
    LiveAction,
    Animation,
}

/// How episodes are numbered when no pattern matches.
#[derive(Clone, Copy, Debug, PartialEq, Eq, Structural)]
pub enum EpisodeFallback {
    FilesystemOrder,
}

/// How the episodes of a series target are recognised.
#[derive(Clone, Debug)]
pub struct EpisodeConfig {
    pub patterns: Vec<String>,
    pub fallback: EpisodeFallback,
    pub start_at: u32,
}

/// The series settings of a series target.
#[derive(Clone, Debug)]
pub struct SeriesConfig {
    pub category: SeriesCategory,
    pub episode: EpisodeConfig,
}

/// One directory to mount: what it holds, where it is read and where its
/// links are created.
#[derive(Clone, Debug)]
pub struct TargetConfig {
    pub name: String,
    pub target_type: TargetType,
    pub source: String,
    pub destination: String,
    pub series: Option<SeriesConfig>,
    pub included: Vec<String>,
    pub ignore: Vec<String>,
}

/// The Jellyfin settings.
#[derive(Clone, Debug)]
pub struct JellyfinConfig {
    pub targets: Vec<TargetConfig>,
}

/// The word messages use for the patterns of wanted files.
pub open spec fn included_kind_text() -> Seq<char> {
    "in"@ + "clude"@
}

/// The word messages use for the patterns of wanted files.
pub fn included_kind() -> (r: String)
    ensures
        r@ == included_kind_text(),
{
    crate::text::concat2("in", "clude")
}

/// The first problem `check` finds among the items, in order, if any.
pub open spec fn first_problem(
    items: Seq<Seq<char>>,
    check: spec_fn(Seq<char>) -> Option<Seq<char>>,
) -> Option<Seq<char>>
    decreases items.len(),
{
    if items.len() == 0 {
        None
    } else {
        match first_problem(items.drop_last(), check) {
            Some(e) => Some(e),
            None => check(items.last()),
        }
    }
}

proof fn lemma_first_problem_prefix(
    items: Seq<Seq<char>>,
    check: spec_fn(Seq<char>) -> Option<Seq<char>>,
    k: int,
)
    requires
        0 <= k <= items.len(),
        first_problem(items.take(k), check) is Some,
    ensures
        first_problem(items, check) == first_problem(items.take(k), check),
    decreases items.len() - k,
{
    if k == items.len() {
        assert(items.take(k) =~= items);
    } else {
        assert(items.take(k + 1).drop_last() =~= items.take(k));
        lemma_first_problem_prefix(items, check, k + 1);
    }
}

/// Why a glob pattern of a target cannot be used, if it cannot.
pub open spec fn glob_problem(kind: Seq<char>, target: Seq<char>, p: Seq<char>) -> Option<
    Seq<char>,
> {
    match glob_compile_error(p) {
        Some(e) => Some(
            "invalid "@ + kind + " pattern "@ + debug_quoted(p) + " in Jellyfin target "@
                + debug_quoted(target) + ": "@ + e,
        ),
        None => None,
    }
}

/// The first unusable glob pattern of a list, reported for a target.
pub open spec fn first_glob_problem(kind: Seq<char>, target: Seq<char>, ps: Seq<Seq<char>>) -> Option<
    Seq<char>,
> {
    first_problem(ps, |p: Seq<char>| glob_problem(kind, target, p))
}

fn check_globs(kind: &str, patterns: &Vec<String>, target: &str) -> (r: Result<(), String>)
    ensures
        match first_glob_problem(kind@, target@, texts(patterns@)) {
            Some(e) => r matches Err(m) && m@ == e,
            None => r is Ok,
        },
{
    let ghost all = texts(patterns@);
    let ghost check = |p: Seq<char>| glob_problem(kind@, target@, p);
    let mut i: usize = 0;
    while i < patterns.len()
        invariant
            i <= patterns@.len(),
            all == texts(patterns@),
            check == (|p: Seq<char>| glob_problem(kind@, target@, p)),
            first_problem(all.take(i as int), check) is None,
        decreases patterns@.len() - i,
    {
        let pattern = patterns[i].as_str();
        proof {
            assert(all.take(i + 1).drop_last() =~= all.take(i as int));
            assert(all.take(i + 1).last() == pattern@);
        }
        match compile_glob(pattern) {
            Err(error) => {
                let mut m = owned("invalid ");
                m.append(kind);
                m.append(" pattern ");
                m.append(debug_text(pattern).as_str());
                m.append(" in Jellyfin target ");
                m.append(debug_text(target).as_str());
                m.append(": ");
                m.append(error.as_str());
                proof {
                    lemma_first_problem_prefix(all, check, i + 1);
                }
                return Err(m);
            },
            Ok(()) => {},
        }
        i = i + 1;
    }
    proof {
        assert(all.take(i as int) =~= all);
    }
    Ok(())
}

/// What validating an episode configuration of a target gives.
pub open spec fn episode_validation(e: EpisodeConfig, target: Seq<char>) -> Result<(), Seq<char>> {
    if e.start_at == 0 {
        Err(
            "jellyfin target "@ + debug_quoted(target)
                + " series.episode.start_at must be greater than zero"@,
        )
    } else {
        match first_pattern_problem(texts(e.patterns@)) {
            Some(p) => Err("jellyfin target "@ + debug_quoted(target) + ": "@ + p),
            None => Ok(()),
        }
    }
}

/// Whether a result of the library agrees with the verdict of a spec.
pub open spec fn agrees(r: Result<(), String>, verdict: Result<(), Seq<char>>) -> bool {
    match verdict {
        Ok(_) => r is Ok,
        Err(e) => r matches Err(m) && m@ == e,
    }
}

impl EpisodeConfig {
    /// Episodes are numbered from one up, and every pattern must compile and
    /// have an `episode` group.
    pub fn validate(&self, target_name: &str) -> (r: Result<(), String>)
        ensures
            agrees(r, episode_validation(*self, target_name@)),
    {
        if self.start_at == 0 {
            let mut m = owned("jellyfin target ");
            m.append(debug_text(target_name).as_str());
            m.append(" series.episode.start_at must be greater than zero");
            return Err(m);
        }
        match EpisodePatterns::compile(self) {
            Ok(_) => Ok(()),
            Err(error) => {
                let mut m = owned("jellyfin target ");
                m.append(debug_text(target_name).as_str());
                m.append(": ");
                m.append(error.as_str());
                Err(m)
            },
        }
    }
}

impl SeriesConfig {
    /// The series settings are valid when their episode settings are.
    pub fn validate(&self, target_name: &str) -> (r: Result<(), String>)
        ensures
            agrees(r, episode_validation(self.episode, target_name@)),
    {
        self.episode.validate(target_name)
    }
}

/// What validating a target gives: a non-blank name, a source and a
/// destination, at least one pattern of wanted files, glob patterns that
/// compile,
/// and series settings exactly when the target holds series.
pub open spec fn target_validation(t: TargetConfig) -> Result<(), Seq<char>> {
    let name = t.name@;
    if trimmed(name).len() == 0 {
        Err("jellyfin target name cannot be empty"@)
    } else if t.source@.len() == 0 {
        Err("jellyfin target "@ + debug_quoted(name) + " source is required"@)
    } else if t.destination@.len() == 0 {
        Err("jellyfin target "@ + debug_quoted(name) + " destination is required"@)
    } else if t.included@.len() == 0 {
        Err(
            "jellyfin target "@ + debug_quoted(name) + " "@ + included_kind_text()
                + " must contain at least one pattern"@,
        )
    } else {
        match first_glob_problem(included_kind_text(), name, texts(t.included@)) {
            Some(e) => Err(e),
            None => match first_glob_problem("ignore"@, name, texts(t.ignore@)) {
                Some(e) => Err(e),
                None => match t.target_type {
                    TargetType::Series => match t.series {
                        Some(s) => episode_validation(s.episode, name),
                        None => Err(
                            "jellyfin target "@ + debug_quoted(name)
                                + " requires series configuration"@,
                        ),
                    },
                    TargetType::Movies => match t.series {
                        Some(_) => Err(
                            "jellyfin movies target "@ + debug_quoted(name)
                                + " cannot contain series configuration"@,
                        ),
                        None => Ok(()),
                    },
                },
            },
        }
    }
}

proof fn lemma_no_glob_problem_means_valid(kind: Seq<char>, target: Seq<char>, ps: Seq<Seq<char>>)
    requires
        first_glob_problem(kind, target, ps) is None,
    ensures
        forall|i: int| 0 <= i < ps.len() ==> glob_valid(#[trigger] ps[i]),
    decreases ps.len(),
{
    if ps.len() > 0 {
        let check = |p: Seq<char>| glob_problem(kind, target, p);
        assert(first_problem(ps.drop_last(), check) is None);
        lemma_no_glob_problem_means_valid(kind, target, ps.drop_last());
        assert forall|i: int| 0 <= i < ps.len() implies glob_valid(#[trigger] ps[i]) by {
            if i < ps.len() - 1 {
                assert(ps[i] == ps.drop_last()[i]);
            } else {
                assert(check(ps.last()) is None);
            }
        }
    }
}

/// A target validates only if every pattern of wanted files and every
/// ignore pattern compiles as a glob: a target with a pattern that does not
/// compile is refused.
pub proof fn valid_targets_have_compiling_globs(t: TargetConfig)
    ensures
        target_validation(t) is Ok ==> forall|i: int|
            0 <= i < t.included@.len() ==> glob_valid(#[trigger] t.included@[i]@),
        target_validation(t) is Ok ==> forall|i: int|
            0 <= i < t.ignore@.len() ==> glob_valid(#[trigger] t.ignore@[i]@),
{
    if target_validation(t) is Ok {
        let name = t.name@;
        lemma_no_glob_problem_means_valid(included_kind_text(), name, texts(t.included@));
        lemma_no_glob_problem_means_valid("ignore"@, name, texts(t.ignore@));
        assert forall|i: int| 0 <= i < t.included@.len() implies glob_valid(
            #[trigger] t.included@[i]@,
        ) by {
            assert(texts(t.included@)[i] == t.included@[i]@);
        }
        assert forall|i: int| 0 <= i < t.ignore@.len() implies glob_valid(#[trigger] t.ignore@[i]@) by {
            assert(texts(t.ignore@)[i] == t.ignore@[i]@);
        }
    }
}

/// What checking a target's directories gives: the source must be a
/// directory, and the destination, when it exists, too.
pub open spec fn source_validation(
    t: TargetConfig,
    source_is_directory: bool,
    destination_exists: bool,
    destination_is_directory: bool,
) -> Result<(), Seq<char>> {
    if !source_is_directory {
        Err("Jellyfin target "@ + debug_quoted(t.name@) + " source "@ + t.source@
            + " is not a directory"@)
    } else if destination_exists && !destination_is_directory {
        Err("Jellyfin target "@ + debug_quoted(t.name@) + " destination "@ + t.destination@
            + " is not a directory"@)
    } else {
        Ok(())
    }
}

/// Whether a target's patterns of wanted files take in a path: a pattern that
/// compiles matches the path relative to the source, or its file name.
pub open spec fn target_includes(t: TargetConfig, path: Seq<char>) -> bool {
    exists|i: int|
        0 <= i < t.included@.len() && glob_valid(#[trigger] t.included@[i]@) && (glob_matches(
            t.included@[i]@,
            relative_to(path, t.source@),
        ) || (path_file_name(path) matches Some(f) && glob_matches(t.included@[i]@, f)))
}

/// Whether a target's ignore patterns leave out a path: a pattern that
/// compiles matches the path relative to the source.
pub open spec fn target_ignores(t: TargetConfig, path: Seq<char>) -> bool {
    exists|i: int|
        0 <= i < t.ignore@.len() && glob_valid(#[trigger] t.ignore@[i]@) && glob_matches(
            t.ignore@[i]@,
            relative_to(path, t.source@),
        )
}

impl TargetConfig {
    /// Checks the target's settings; the first broken rule is reported.
    pub fn validate(&self) -> (r: Result<(), String>)
        ensures
            agrees(r, target_validation(*self)),
    {
        if trim(self.name.as_str()).is_empty() {
            return Err(owned("jellyfin target name cannot be empty"));
        }
        if self.source.as_str().is_empty() {
            let mut m = owned("jellyfin target ");
            m.append(debug_text(self.name.as_str()).as_str());
            m.append(" source is required");
            return Err(m);
        }
        if self.destination.as_str().is_empty() {
            let mut m = owned("jellyfin target ");
            m.append(debug_text(self.name.as_str()).as_str());
            m.append(" destination is required");
            return Err(m);
        }
        if self.included.len() == 0 {
            let mut m = owned("jellyfin target ");
            m.append(debug_text(self.name.as_str()).as_str());
            m.append(" ");
            m.append(included_kind().as_str());
            m.append(" must contain at least one pattern");
            return Err(m);
        }
        check_globs(included_kind().as_str(), &self.included, self.name.as_str())?;
        check_globs("ignore", &self.ignore, self.name.as_str())?;
        match (&self.target_type, &self.series) {
            (TargetType::Series, Some(series)) => series.validate(self.name.as_str()),
            (TargetType::Series, None) => {
                let mut m = owned("jellyfin target ");
                m.append(debug_text(self.name.as_str()).as_str());
                m.append(" requires series configuration");
                Err(m)
            },
            (TargetType::Movies, Some(_)) => {
                let mut m = owned("jellyfin movies target ");
                m.append(debug_text(self.name.as_str()).as_str());
                m.append(" cannot contain series configuration");
                Err(m)
            },
            (TargetType::Movies, None) => Ok(()),
        }
    }

    /// Checks the target's directories: the source must be a directory, and
    /// the destination, when it exists, too. The app probes the file system
    /// and hands in what it found.
    pub fn validate_source(
        &self,
        source_is_directory: bool,
        destination_exists: bool,
        destination_is_directory: bool,
    ) -> (r: Result<(), String>)
        ensures
            agrees(
                r,
                source_validation(
                    *self,
                    source_is_directory,
                    destination_exists,
                    destination_is_directory,
                ),
            ),
    {
        if !source_is_directory {
            let mut m = owned("Jellyfin target ");
            m.append(debug_text(self.name.as_str()).as_str());
            m.append(" source ");
            m.append(self.source.as_str());
            m.append(" is not a directory");
            return Err(m);
        }
        if destination_exists && !destination_is_directory {
            let mut m = owned("Jellyfin target ");
            m.append(debug_text(self.name.as_str()).as_str());
            m.append(" destination ");
            m.append(self.destination.as_str());
            m.append(" is not a directory");
            return Err(m);
        }
        Ok(())
    }

    /// Whether the target takes in a path.
    pub fn includes(&self, path: &str) -> (r: bool)
        ensures
            r == target_includes(*self, path@),
    {
        let relative = relative_path(path, self.source.as_str());
        let name = file_name(path);
        let mut i: usize = 0;
        while i < self.included.len()
            invariant
                i <= self.included@.len(),
                relative@ == relative_to(path@, self.source@),
                match name {
                    Some(f) => path_file_name(path@) == Some(f@),
                    None => path_file_name(path@) is None,
                },
                forall|j: int|
                    0 <= j < i ==> !(glob_valid(#[trigger] self.included@[j]@) && (glob_matches(
                        self.included@[j]@,
                        relative_to(path@, self.source@),
                    ) || (path_file_name(path@) matches Some(f) && glob_matches(
                        self.included@[j]@,
                        f,
                    )))),
            decreases self.included@.len() - i,
        {
            let pattern = self.included[i].as_str();
            if compile_glob(pattern).is_ok() {
                if glob_match(pattern, relative.as_str()) {
                    return true;
                }
                match &name {
                    Some(f) => {
                        if glob_match(pattern, f.as_str()) {
                            return true;
                        }
                    },
                    None => {},
                }
            }
            i = i + 1;
        }
        false
    }

    /// Whether the target leaves out a path.
    pub fn ignores(&self, path: &str) -> (r: bool)
        ensures
            r == target_ignores(*self, path@),
    {
        let relative = relative_path(path, self.source.as_str());
        let mut i: usize = 0;
        while i < self.ignore.len()
            invariant
                i <= self.ignore@.len(),
                relative@ == relative_to(path@, self.source@),
                forall|j: int|
                    0 <= j < i ==> !(glob_valid(#[trigger] self.ignore@[j]@) && glob_matches(
                        self.ignore@[j]@,
                        relative_to(path@, self.source@),
                    )),
            decreases self.ignore@.len() - i,
        {
            let pattern = self.ignore[i].as_str();
            if compile_glob(pattern).is_ok() {
                if glob_match(pattern, relative.as_str()) {
                    return true;
                }
            }
            i = i + 1;
        }
        false
    }
}

/// The name of the Jellyfin configuration file in the directory of the
/// command configurations.
pub const JELLYFIN_CONFIG_FILE_NAME: &'static str = "jellyfin.yaml";

/// Where the Jellyfin configuration is read from: `jellyfin.yaml` in the
/// directory of the command configurations, which must exist.
pub fn jellyfin_config_path(configs_directory: Option<&str>) -> (r: Result<String, String>)
    ensures
        match configs_directory {
            Some(d) => r matches Ok(p) && p@ == joined_path(d@, JELLYFIN_CONFIG_FILE_NAME@),
            None => r matches Err(m) && m@
                == "unable to read Jellyfin configuration because the configuration directory does not exist"@,
        },
{
    match configs_directory {
        Some(d) => Ok(join_path(d, JELLYFIN_CONFIG_FILE_NAME)),
        None => Err(
            owned(
                "unable to read Jellyfin configuration because the configuration directory does not exist",
            ),
        ),
    }
}

/// The report of a Jellyfin configuration file that does not exist.
pub fn missing_jellyfin_config(path: &str) -> (r: String)
    ensures
        r@ == "unable to read Jellyfin configuration because "@ + path@ + " does not exist"@,
{
    let mut m = owned("unable to read Jellyfin configuration because ");
    m.append(path);
    m.append(" does not exist");
    m
}

/// The patterns of wanted files of a target that configures none: Matroska, MP4 and
/// AVI videos.
pub fn default_include_patterns() -> (r: Vec<String>)
    ensures
        r@.len() == 3,
        r@[0]@ == "*.mkv"@,
        r@[1]@ == "*.mp4"@,
        r@[2]@ == "*.avi"@,
{
    let mut r: Vec<String> = Vec::new();
    r.push(owned("*.mkv"));
    r.push(owned("*.mp4"));
    r.push(owned("*.avi"));
    r
}

/// The first episode number of a series that configures none.
pub fn default_episode_start() -> (r: u32)
    ensures
        r == 1,
{
    1
}

/// Whether a name is already taken by one of the targets.
pub open spec fn name_taken(targets: Seq<TargetConfig>, name: Seq<char>) -> bool {
    exists|i: int| 0 <= i < targets.len() && #[trigger] targets[i].name@ == name
}

/// What checking the targets one by one gives: the first target that is
/// invalid, or whose name an earlier target already has, is reported.
pub open spec fn targets_check(ts: Seq<TargetConfig>) -> Result<(), Seq<char>>
    decreases ts.len(),
{
    if ts.len() == 0 {
        Ok(())
    } else {
        match targets_check(ts.drop_last()) {
            Err(e) => Err(e),
            Ok(_) => match target_validation(ts.last()) {
                Err(e) => Err(e),
                Ok(_) => if name_taken(ts.drop_last(), ts.last().name@) {
                    Err(
                        "jellyfin target name "@ + debug_quoted(ts.last().name@) + " is duplicated"@,
                    )
                } else {
                    Ok(())
                },
            },
        }
    }
}

/// What validating a Jellyfin configuration gives.
pub open spec fn config_validation(ts: Seq<TargetConfig>) -> Result<(), Seq<char>> {
    if ts.len() == 0 {
        Err("jellyfin.targets must contain at least one target"@)
    } else {
        targets_check(ts)
    }
}

proof fn lemma_targets_check_prefix(ts: Seq<TargetConfig>, k: int)
    requires
        0 <= k <= ts.len(),
        targets_check(ts.take(k)) is Err,
    ensures
        targets_check(ts) == targets_check(ts.take(k)),
    decreases ts.len() - k,
{
    if k == ts.len() {
        assert(ts.take(k) =~= ts);
    } else {
        assert(ts.take(k + 1).drop_last() =~= ts.take(k));
        lemma_targets_check_prefix(ts, k + 1);
    }
}

impl JellyfinConfig {
    /// Checks the configuration: at least one target, every target valid,
    /// and no two targets with the same name.
    pub fn validate(&self) -> (r: Result<(), String>)
        ensures
            agrees(r, config_validation(self.targets@)),
    {
        if self.targets.len() == 0 {
            return Err(owned("jellyfin.targets must contain at least one target"));
        }
        let ghost ts = self.targets@;
        let mut i: usize = 0;
        while i < self.targets.len()
            invariant
                i <= ts.len(),
                ts == self.targets@,
                ts.len() > 0,
                targets_check(ts.take(i as int)) is Ok,
            decreases ts.len() - i,
        {
            let target = &self.targets[i];
            proof {
                assert(ts.take(i + 1).drop_last() =~= ts.take(i as int));
                assert(ts.take(i + 1).last() == *target);
            }
            match target.validate() {
                Err(e) => {
                    proof {
                        lemma_targets_check_prefix(ts, i + 1);
                    }
                    return Err(e);
                },
                Ok(()) => {},
            }
            let mut j: usize = 0;
            while j < i
                invariant
                    j <= i,
                    i < ts.len(),
                    ts == self.targets@,
                    *target == ts[i as int],
                    target_validation(ts[i as int]) is Ok,
                    targets_check(ts.take(i as int)) is Ok,
                    forall|k: int| 0 <= k < j ==> #[trigger] ts[k].name@ != ts[i as int].name@,
                decreases i - j,
            {
                if equals(self.targets[j].name.as_str(), target.name.as_str()) {
                    let mut m = owned("jellyfin target name ");
                    m.append(debug_text(target.name.as_str()).as_str());
                    m.append(" is duplicated");
                    proof {
                        assert(ts.take(i as int)[j as int] == ts[j as int]);
                        assert(ts.take(i as int)[j as int].name@ == ts[i as int].name@);
                        assert(name_taken(ts.take(i as int), ts[i as int].name@));
                        assert(ts.take(i + 1).drop_last() =~= ts.take(i as int));
                        assert(ts.take(i + 1).last() == ts[i as int]);
                        lemma_targets_check_prefix(ts, i + 1);
                    }
                    return Err(m);
                }
                j = j + 1;
            }
            proof {
                if name_taken(ts.take(i as int), ts[i as int].name@) {
                    let k = choose|k: int|
                        0 <= k < i && #[trigger] ts.take(i as int)[k].name@ == ts[i as int].name@;
                    assert(ts.take(i as int)[k] == ts[k]);
                }
            }
            i = i + 1;
        }
        proof {
            assert(ts.take(i as int) =~= ts);
        }
        Ok(())
    }
}

/// A valid configuration has at least one target, only valid targets, and
/// no two targets with the same name.
pub proof fn valid_configs_have_distinct_valid_targets(ts: Seq<TargetConfig>)
    requires
        config_validation(ts) is Ok,
    ensures
        ts.len() > 0,
        forall|i: int| 0 <= i < ts.len() ==> target_validation(#[trigger] ts[i]) is Ok,
        forall|i: int, j: int|
            0 <= i < j < ts.len() ==> #[trigger] ts[i].name@ != #[trigger] ts[j].name@,
{
    lemma_targets_check_ok(ts);
}

proof fn lemma_targets_check_ok(ts: Seq<TargetConfig>)
    requires
        targets_check(ts) is Ok,
    ensures
        forall|i: int| 0 <= i < ts.len() ==> target_validation(#[trigger] ts[i]) is Ok,
        forall|i: int, j: int|
            0 <= i < j < ts.len() ==> #[trigger] ts[i].name@ != #[trigger] ts[j].name@,
    decreases ts.len(),
{
    if ts.len() > 0 {
        let prefix = ts.drop_last();
        lemma_targets_check_ok(prefix);
        assert forall|i: int| 0 <= i < ts.len() implies target_validation(#[trigger] ts[i]) is Ok by {
            if i < ts.len() - 1 {
                assert(ts[i] == prefix[i]);
            }
        }
        assert forall|i: int, j: int| 0 <= i < j < ts.len() implies #[trigger] ts[i].name@
            != #[trigger] ts[j].name@ by {
            if j < ts.len() - 1 {
                assert(ts[i] == prefix[i]);
                assert(ts[j] == prefix[j]);
            } else {
                assert(ts[i] == prefix[i]);
                if ts[i].name@ == ts[j].name@ {
                    assert(name_taken(prefix, ts.last().name@));
                }
            }
        }
    }
}

/// A valid target holds series settings exactly when it is a series target,
/// and has at least one pattern of wanted files.
pub proof fn valid_targets_are_consistent(t: TargetConfig)
    requires
        target_validation(t) is Ok,
    ensures
        t.included@.len() > 0,
        t.target_type == TargetType::Series <==> t.series is Some,
        trimmed(t.name@).len() > 0,
{
}

} // verus!
