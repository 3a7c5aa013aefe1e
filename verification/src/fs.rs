//! File-name rules shared by every command that writes into the library.

use vstd::prelude::*;
use crate::matching::{compile_glob, glob_match, glob_matches, glob_valid};
use crate::text::push_char;

verus! {

/// Characters that cannot appear in a file or directory name on the
/// platforms the library is shared with (Windows over SMB included).
pub open spec fn is_illegal_char(c: char) -> bool {
    c == '<' || c == '>' || c == ':' || c == '"' || c == '/' || c == '\\' || c == '|' || c == '?'
        || c == '*'
}

/// The name with every illegal character removed, the others kept in order.
pub open spec fn stripped(s: Seq<char>) -> Seq<char> {
    s.filter(|c: char| !is_illegal_char(c))
}

proof fn lemma_stripped_step(s: Seq<char>, i: int)
    requires
        0 <= i < s.len(),
    ensures
        stripped(s.take(i + 1)) == if is_illegal_char(s[i]) {
            stripped(s.take(i))
        } else {
            stripped(s.take(i)).push(s[i])
        },
{
    reveal(Seq::filter);
    assert(s.take(i + 1).drop_last() =~= s.take(i));
}

/// Strips the characters that are illegal in directory and file names.
pub fn strip_illegal_chars(value: &str) -> (sanitized: String)
    ensures
        sanitized@ == stripped(value@),
{
    let mut sanitized = String::new();
    let n = value.unicode_len();
    let mut i: usize = 0;
    while i < n
        invariant
            n == value@.len(),
            i <= n,
            sanitized@ == stripped(value@.take(i as int)),
        decreases n - i,
    {
        let c = value.get_char(i);
        proof {
            lemma_stripped_step(value@, i as int);
        }
        let is_illegal = c == '<' || c == '>' || c == ':' || c == '"' || c == '/' || c == '\\'
            || c == '|' || c == '?' || c == '*';
        if !is_illegal {
            push_char(&mut sanitized, c);
        }
        i = i + 1;
    }
    assert(value@.take(n as int) =~= value@);
    sanitized
}

proof fn lemma_stripped_legal(s: Seq<char>)
    ensures
        forall|i: int| 0 <= i < stripped(s).len() ==> !is_illegal_char(#[trigger] stripped(s)[i]),
        stripped(s).len() <= s.len(),
    decreases s.len(),
{
    reveal(Seq::filter);
    if s.len() > 0 {
        lemma_stripped_legal(s.drop_last());
    }
}

proof fn lemma_stripped_keeps_legal(s: Seq<char>)
    requires
        forall|i: int| 0 <= i < s.len() ==> !is_illegal_char(#[trigger] s[i]),
    ensures
        stripped(s) == s,
    decreases s.len(),
{
    reveal(Seq::filter);
    if s.len() > 0 {
        lemma_stripped_keeps_legal(s.drop_last());
        assert(s.drop_last().push(s.last()) =~= s);
    } else {
        assert(s =~= Seq::<char>::empty());
    }
}

/// A sanitized name holds no illegal character, is no longer than the
/// name it came from, keeps a name that was already legal, and sanitizing it again
/// changes nothing.
pub proof fn stripped_names_are_legal(s: Seq<char>)
    ensures
        forall|i: int| 0 <= i < stripped(s).len() ==> !is_illegal_char(#[trigger] stripped(s)[i]),
        stripped(s).len() <= s.len(),
        (forall|i: int| 0 <= i < s.len() ==> !is_illegal_char(#[trigger] s[i])) ==> stripped(s)
            == s,
        stripped(stripped(s)) == stripped(s),
{
    lemma_stripped_legal(s);
    if forall|i: int| 0 <= i < s.len() ==> !is_illegal_char(#[trigger] s[i]) {
        lemma_stripped_keeps_legal(s);
    }
    lemma_stripped_keeps_legal(stripped(s));
}

/// A path joined with a relative or absolute child, as `Path::join` does on
/// Unix: an absolute child replaces the base; otherwise a `/` is put between
/// them unless the base is empty or already ends with one.
pub open spec fn joined_path(base: Seq<char>, child: Seq<char>) -> Seq<char> {
    if child.len() > 0 && child[0] == '/' {
        child
    } else if base.len() == 0 || base.last() == '/' {
        base + child
    } else {
        base + "/"@ + child
    }
}

/// Joins a child path to a base path.
pub fn join_path(base: &str, child: &str) -> (r: String)
    ensures
        r@ == joined_path(base@, child@),
{
    let nb = base.unicode_len();
    let nc = child.unicode_len();
    if nc > 0 && child.get_char(0) == '/' {
        return String::from_str(child);
    }
    let mut r = String::from_str(base);
    if nb > 0 && base.get_char(nb - 1) != '/' {
        r.append("/");
    }
    r.append(child);
    r
}

/// A character as it stands in a sanitized name: an illegal character
/// becomes `_`, the others stay.
pub open spec fn sanitized_char(c: char) -> char {
    if is_illegal_char(c) {
        '_'
    } else {
        c
    }
}

/// A file or directory name with every illegal character replaced by `_`.
pub open spec fn sanitized_component(s: Seq<char>) -> Seq<char> {
    s.map_values(|c: char| sanitized_char(c))
}

/// A relative path with every illegal character of its components replaced
/// by `_`; the `/` between components stays.
pub open spec fn sanitized_relative(s: Seq<char>) -> Seq<char> {
    s.map_values(|c: char| if c == '/' { '/' } else { sanitized_char(c) })
}

/// Replaces the characters that are illegal in a file or directory name
/// with `_`, keeping the length and every other character.
pub fn sanitize_filename_component(value: &str) -> (r: String)
    ensures
        r@ == sanitized_component(value@),
{
    let mut r = String::new();
    let n = value.unicode_len();
    let mut i: usize = 0;
    while i < n
        invariant
            n == value@.len(),
            i <= n,
            r@ == sanitized_component(value@.take(i as int)),
        decreases n - i,
    {
        let c = value.get_char(i);
        let is_illegal = c == '<' || c == '>' || c == ':' || c == '"' || c == '/' || c == '\\'
            || c == '|' || c == '?' || c == '*';
        if is_illegal {
            push_char(&mut r, '_');
        } else {
            push_char(&mut r, c);
        }
        assert(value@.take(i + 1) =~= value@.take(i as int).push(c));
        assert(sanitized_component(value@.take(i + 1)) =~= sanitized_component(
            value@.take(i as int),
        ).push(sanitized_char(c)));
        i = i + 1;
    }
    assert(value@.take(n as int) =~= value@);
    r
}

/// Sanitizes each component of a relative path, keeping the separators.
pub fn sanitize_relative_path(value: &str) -> (r: String)
    ensures
        r@ == sanitized_relative(value@),
{
    let mut r = String::new();
    let n = value.unicode_len();
    let mut i: usize = 0;
    while i < n
        invariant
            n == value@.len(),
            i <= n,
            r@ == sanitized_relative(value@.take(i as int)),
        decreases n - i,
    {
        let c = value.get_char(i);
        let is_illegal = c == '<' || c == '>' || c == ':' || c == '"' || c == '\\' || c == '|'
            || c == '?' || c == '*';
        if is_illegal {
            push_char(&mut r, '_');
        } else {
            push_char(&mut r, c);
        }
        assert(value@.take(i + 1) =~= value@.take(i as int).push(c));
        assert(sanitized_relative(value@.take(i + 1)) =~= sanitized_relative(
            value@.take(i as int),
        ).push(if c == '/' { '/' } else { sanitized_char(c) }));
        i = i + 1;
    }
    assert(value@.take(n as int) =~= value@);
    r
}

/// A sanitized name is as long as the name it came from and holds no illegal
/// character; a name that was already legal is kept as it is.
pub proof fn sanitized_names_are_legal(s: Seq<char>)
    ensures
        sanitized_component(s).len() == s.len(),
        forall|i: int|
            0 <= i < s.len() ==> !is_illegal_char(#[trigger] sanitized_component(s)[i]),
        (forall|i: int| 0 <= i < s.len() ==> !is_illegal_char(#[trigger] s[i]))
            ==> sanitized_component(s) == s,
{
    if forall|i: int| 0 <= i < s.len() ==> !is_illegal_char(#[trigger] s[i]) {
        assert(sanitized_component(s) =~= s);
    }
}

/// Whether one of the patterns that compile matches the path.
pub open spec fn matches_any_pattern(path: Seq<char>, patterns: Seq<String>) -> bool {
    exists|i: int|
        0 <= i < patterns.len() && glob_valid(#[trigger] patterns[i]@) && glob_matches(
            patterns[i]@,
            path,
        )
}

/// Whether a path matches one of the glob patterns; patterns that do not
/// compile are left out.
pub fn path_match_any_pattern(path: &str, patterns: &[String]) -> (r: bool)
    ensures
        r == matches_any_pattern(path@, patterns@),
{
    let mut i: usize = 0;
    while i < patterns.len()
        invariant
            i <= patterns@.len(),
            forall|j: int|
                0 <= j < i ==> !(glob_valid(#[trigger] patterns@[j]@) && glob_matches(
                    patterns@[j]@,
                    path@,
                )),
        decreases patterns@.len() - i,
    {
        let pattern = patterns[i].as_str();
        match compile_glob(pattern) {
            Ok(()) => {
                if glob_match(pattern, path) {
                    return true;
                }
            },
            Err(_) => {},
        }
        i = i + 1;
    }
    false
}

/// Adding patterns never makes a matching path stop matching.
pub proof fn more_patterns_match_more(path: Seq<char>, patterns: Seq<String>, extra: Seq<String>)
    requires
        matches_any_pattern(path, patterns),
    ensures
        matches_any_pattern(path, patterns + extra),
{
    let i = choose|i: int|
        0 <= i < patterns.len() && glob_valid(#[trigger] patterns[i]@) && glob_matches(
            patterns[i]@,
            path,
        );
    assert((patterns + extra)[i] == patterns[i]);
}

/// What `Path::strip_prefix` leaves of a path once the base is removed
/// (component-wise), or `None` when the path does not start with the base.
pub uninterp spec fn path_without_prefix(path: Seq<char>, base: Seq<char>) -> Option<Seq<char>>;

/// The last component of a path (`Path::file_name`), if it has one.
pub uninterp spec fn path_file_name(path: Seq<char>) -> Option<Seq<char>>;

/// `Path::strip_prefix`.
///
/// Trusted: the outcome is named `path_without_prefix` of the two paths; the
/// component rules of std paths are not written out here.
#[verifier::external_body]
pub(crate) fn strip_path_prefix(path: &str, base: &str) -> (r: Option<String>)
    ensures
        match r {
            Some(rest) => path_without_prefix(path@, base@) == Some(rest@),
            None => path_without_prefix(path@, base@) is None,
        },
{
    match std::path::Path::new(path).strip_prefix(base) {
        Ok(rest) => Some(rest.to_string_lossy().into_owned()),
        Err(_) => None,
    }
}

/// `Path::file_name`.
///
/// Trusted: the outcome is named `path_file_name` of the path. A component
/// of a path given as text is itself text, so no character is lost.
#[verifier::external_body]
pub(crate) fn file_name(path: &str) -> (r: Option<String>)
    ensures
        match r {
            Some(name) => path_file_name(path@) == Some(name@),
            None => path_file_name(path@) is None,
        },
{
    match std::path::Path::new(path).file_name() {
        Some(name) => Some(name.to_string_lossy().into_owned()),
        None => None,
    }
}

/// The file name of a path without its extension (`Path::file_stem`), if
/// the path has a file name.
pub uninterp spec fn path_file_stem(path: Seq<char>) -> Option<Seq<char>>;

/// `Path::file_stem`.
///
/// Trusted: the outcome is named `path_file_stem` of the path; std's rules
/// for where the extension starts are not written out here.
#[verifier::external_body]
pub(crate) fn file_stem(path: &str) -> (r: Option<String>)
    ensures
        match r {
            Some(stem) => path_file_stem(path@) == Some(stem@),
            None => path_file_stem(path@) is None,
        },
{
    match std::path::Path::new(path).file_stem() {
        Some(stem) => Some(stem.to_string_lossy().into_owned()),
        None => None,
    }
}

/// The path without its last component (`Path::parent`), if it has one.
pub uninterp spec fn path_parent(path: Seq<char>) -> Option<Seq<char>>;

/// `Path::parent`.
///
/// Trusted: the outcome is named `path_parent` of the path; std's component
/// rules are not written out here.
#[verifier::external_body]
pub(crate) fn parent(path: &str) -> (r: Option<String>)
    ensures
        match r {
            Some(p) => path_parent(path@) == Some(p@),
            None => path_parent(path@) is None,
        },
{
    match std::path::Path::new(path).parent() {
        Some(p) => Some(p.to_string_lossy().into_owned()),
        None => None,
    }
}

/// A path relative to a base: the path without the base when it starts
/// with it, else the path unchanged (`strip_prefix(base).unwrap_or(path)`).
pub open spec fn relative_to(path: Seq<char>, base: Seq<char>) -> Seq<char> {
    match path_without_prefix(path, base) {
        Some(rest) => rest,
        None => path,
    }
}

/// The path relative to a base.
pub fn relative_path(path: &str, base: &str) -> (r: String)
    ensures
        r@ == relative_to(path@, base@),
{
    match strip_path_prefix(path, base) {
        Some(rest) => rest,
        None => String::from_str(path),
    }
}

/// A path with a leading `~` component replaced by the home directory;
/// without such a component, or without a home directory, the path is kept.
pub open spec fn expanded_user_dir(path: Seq<char>, home: Option<Seq<char>>) -> Seq<char> {
    match path_without_prefix(path, "~"@) {
        None => path,
        Some(rest) => match home {
            None => path,
            Some(h) => joined_path(h, rest),
        },
    }
}

/// Expands a leading `~` of a path to the home directory (`HOME`, which the
/// app reads and hands in).
pub fn expand_user_dir(path: &str, home: Option<&str>) -> (r: String)
    ensures
        r@ == expanded_user_dir(
            path@,
            match home {
                Some(h) => Some(h@),
                None => None,
            },
        ),
{
    match strip_path_prefix(path, "~") {
        None => String::from_str(path),
        Some(rest) => match home {
            None => String::from_str(path),
            Some(h) => join_path(h, rest.as_str()),
        },
    }
}

/// The extension of a path (`Path::extension`), if it has one.
pub uninterp spec fn path_extension(path: Seq<char>) -> Option<Seq<char>>;

/// `Path::extension`.
///
/// Trusted: the outcome is named `path_extension` of the path; std's rules
/// for where an extension starts are not written out here.
#[verifier::external_body]
pub(crate) fn extension(path: &str) -> (r: Option<String>)
    ensures
        match r {
            Some(ext) => path_extension(path@) == Some(ext@),
            None => path_extension(path@) is None,
        },
{
    match std::path::Path::new(path).extension() {
        Some(ext) => Some(ext.to_string_lossy().into_owned()),
        None => None,
    }
}

} // verus!
