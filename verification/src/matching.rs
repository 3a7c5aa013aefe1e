//! Glob and regular-expression matching, computed by the `glob` and `regex`
//! crates. Each helper compiles the pattern it is given and answers one
//! question about it; patterns are identified by their source text.

use vstd::prelude::*;

verus! {

/// The error text of `glob::Pattern::new` on a pattern, or `None` when the
/// pattern compiles.
pub uninterp spec fn glob_compile_error(pattern: Seq<char>) -> Option<Seq<char>>;

/// Whether the path matches the compiled glob pattern
/// (`glob::Pattern::matches` with the default options).
pub uninterp spec fn glob_matches(pattern: Seq<char>, path: Seq<char>) -> bool;

/// Whether a glob pattern compiles.
pub open spec fn glob_valid(pattern: Seq<char>) -> bool {
    glob_compile_error(pattern) is None
}

/// `glob::Pattern::new`, reduced to its verdict.
///
/// Trusted: the verdict and the displayed `PatternError` are named
/// `glob_compile_error` of the pattern; the glob grammar is not written out.
#[verifier::external_body]
pub(crate) fn compile_glob(pattern: &str) -> (r: Result<(), String>)
    ensures
        r is Ok <==> glob_compile_error(pattern@) is None,
        r matches Err(m) ==> glob_compile_error(pattern@) == Some(m@),
{
    match glob::Pattern::new(pattern) {
        Ok(_) => Ok(()),
        Err(e) => Err(e.to_string()),
    }
}

/// `glob::Pattern::matches` of the pattern compiled from `pattern`.
///
/// Trusted: the answer is named `glob_matches` of the pattern and the path;
/// the matching algorithm is not written out. `matches_path`, which the
/// library's callers use on paths, matches the path's text the same way.
#[verifier::external_body]
pub(crate) fn glob_match(pattern: &str, path: &str) -> (r: bool)
    requires
        glob_valid(pattern@),
    ensures
        r == glob_matches(pattern@, path@),
{
    match glob::Pattern::new(pattern) {
        Ok(compiled) => compiled.matches(path),
        Err(_) => false,
    }
}

/// The error text of `regex::Regex::new` on a pattern, or `None` when the
/// pattern compiles.
pub uninterp spec fn regex_compile_error(pattern: Seq<char>) -> Option<Seq<char>>;

/// Whether the compiled regular expression matches somewhere in the text
/// (`regex::Regex::is_match`).
pub uninterp spec fn regex_is_match(pattern: Seq<char>, text: Seq<char>) -> bool;

/// The names of the capture groups of a compiled regular expression, in
/// group order, `None` for unnamed groups (`regex::Regex::capture_names`).
pub uninterp spec fn regex_capture_names(pattern: Seq<char>) -> Seq<Option<Seq<char>>>;

/// The leftmost-first match of a compiled regular expression in a text,
/// reduced to the named group: `None` when nothing matches, `Some(None)`
/// when the group took no part in the match, `Some(Some(text))` otherwise
/// (`regex::Regex::captures` then `Captures::name`).
pub uninterp spec fn regex_named_capture(pattern: Seq<char>, text: Seq<char>, name: Seq<char>) -> Option<
    Option<Seq<char>>,
>;

/// Whether a regular expression compiles.
pub open spec fn regex_valid(pattern: Seq<char>) -> bool {
    regex_compile_error(pattern) is None
}

/// `regex::Regex::new`, reduced to its verdict.
///
/// Trusted: the verdict and the displayed `regex::Error` are named
/// `regex_compile_error` of the pattern; the regex grammar is not written
/// out.
#[verifier::external_body]
pub(crate) fn compile_regex(pattern: &str) -> (r: Result<(), String>)
    ensures
        r is Ok <==> regex_compile_error(pattern@) is None,
        r matches Err(m) ==> regex_compile_error(pattern@) == Some(m@),
{
    match regex::Regex::new(pattern) {
        Ok(_) => Ok(()),
        Err(e) => Err(e.to_string()),
    }
}

/// `regex::Regex::is_match` of the expression compiled from `pattern`.
///
/// Trusted: the answer is named `regex_is_match` of the pattern and text.
#[verifier::external_body]
pub(crate) fn regex_match(pattern: &str, text: &str) -> (r: bool)
    requires
        regex_valid(pattern@),
    ensures
        r == regex_is_match(pattern@, text@),
{
    match regex::Regex::new(pattern) {
        Ok(compiled) => compiled.is_match(text),
        Err(_) => false,
    }
}

/// The optional text of an optional string.
pub open spec fn option_view(o: Option<String>) -> Option<Seq<char>> {
    match o {
        Some(s) => Some(s@),
        None => None,
    }
}

/// `regex::Regex::capture_names` of the expression compiled from `pattern`.
///
/// Trusted: the names, in order, are named `regex_capture_names` of the
/// pattern.
#[verifier::external_body]
pub(crate) fn regex_group_names(pattern: &str) -> (r: Vec<Option<String>>)
    requires
        regex_valid(pattern@),
    ensures
        r@.len() == regex_capture_names(pattern@).len(),
        forall|i: int|
            0 <= i < r@.len() ==> option_view(#[trigger] r@[i]) == regex_capture_names(
                pattern@,
            )[i],
{
    match regex::Regex::new(pattern) {
        Ok(compiled) => compiled.capture_names().map(|name| name.map(String::from)).collect(),
        Err(_) => Vec::new(),
    }
}

/// `regex::Regex::captures` of the expression compiled from `pattern`,
/// then `Captures::name(name)`.
///
/// Trusted: the outcome is named `regex_named_capture` of the pattern, the
/// text and the group name.
#[verifier::external_body]
pub(crate) fn regex_capture(pattern: &str, text: &str, name: &str) -> (r: Option<Option<String>>)
    requires
        regex_valid(pattern@),
    ensures
        match r {
            None => regex_named_capture(pattern@, text@, name@) is None,
            Some(group) => regex_named_capture(pattern@, text@, name@) == Some(
                option_view(group),
            ),
        },
{
    match regex::Regex::new(pattern) {
        Ok(compiled) => match compiled.captures(text) {
            Some(captures) => Some(captures.name(name).map(|m| m.as_str().to_string())),
            None => None,
        },
        Err(_) => None,
    }
}

/// The leftmost-first match of a compiled regular expression in a text,
/// reduced to the group with the given index, with the same three outcomes
/// as `regex_named_capture` (`regex::Regex::captures` then `Captures::get`).
pub uninterp spec fn regex_indexed_capture(pattern: Seq<char>, text: Seq<char>, index: usize) -> Option<
    Option<Seq<char>>,
>;

/// `regex::Regex::captures` of the expression compiled from `pattern`,
/// then `Captures::get(index)`.
///
/// Trusted: the outcome is named `regex_indexed_capture` of the pattern, the
/// text and the group index.
#[verifier::external_body]
pub(crate) fn regex_capture_group(pattern: &str, text: &str, index: usize) -> (r: Option<Option<String>>)
    requires
        regex_valid(pattern@),
    ensures
        match r {
            None => regex_indexed_capture(pattern@, text@, index) is None,
            Some(group) => regex_indexed_capture(pattern@, text@, index) == Some(
                option_view(group),
            ),
        },
{
    match regex::Regex::new(pattern) {
        Ok(compiled) => match compiled.captures(text) {
            Some(captures) => Some(captures.get(index).map(|m| m.as_str().to_string())),
            None => None,
        },
        Err(_) => None,
    }
}

} // verus!
