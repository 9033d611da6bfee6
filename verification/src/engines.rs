//! The two pattern engines behind the rules: glob patterns and regular
//! expressions. Both live in outside crates; each call the library makes is
//! wrapped here, and what a pattern accepts is given a name that the
//! library's contracts speak of. Whether a pattern compiles, and whether it
//! matches a given text, are functions of the pattern text alone, so the
//! names below are well defined.

use vstd::prelude::*;

verus! {

/// Whether `glob::Pattern::new` accepts the pattern text.
pub uninterp spec fn glob_valid(pattern: Seq<char>) -> bool;

/// Whether the compiled glob pattern matches the path, under case-sensitive
/// matching where `*` and `?` never cross a `/` and a leading dot needs no
/// literal match.
pub uninterp spec fn glob_matches(pattern: Seq<char>, path: Seq<char>) -> bool;

/// Whether `regex::Regex::new` accepts the pattern text.
pub uninterp spec fn regex_valid(pattern: Seq<char>) -> bool;

/// Whether the compiled regular expression matches somewhere inside the text
/// (a substring match, not a full-text match).
pub uninterp spec fn regex_matches(pattern: Seq<char>, text: Seq<char>) -> bool;

/// Relies on `glob::Pattern::new`: whether a pattern text compiles is a
/// deterministic function of that text.
#[verifier::external_body]
pub(crate) fn glob_compile_ok(pattern: &str) -> (r: bool)
    ensures
        r == glob_valid(pattern@),
{
    glob::Pattern::new(pattern).is_ok()
}

/// Relies on `glob::Pattern::matches_with`: a deterministic function of the
/// pattern text, the path and the options. The options are fixed here to the
/// library's policy (case-sensitive, literal separators, no literal leading
/// dot), which is what `glob_matches` names.
#[verifier::external_body]
pub(crate) fn glob_match(pattern: &str, path: &str) -> (r: bool)
    requires
        glob_valid(pattern@),
    ensures
        r == glob_matches(pattern@, path@),
{
    let compiled = glob::Pattern::new(pattern).unwrap();
    compiled.matches_with(
        path,
        glob::MatchOptions {
            case_sensitive: true,
            require_literal_separator: true,
            require_literal_leading_dot: false,
        },
    )
}

/// Relies on `regex::Regex::new`: whether a pattern text compiles is a
/// deterministic function of that text.
#[verifier::external_body]
pub(crate) fn regex_compile_ok(pattern: &str) -> (r: bool)
    ensures
        r == regex_valid(pattern@),
{
    regex::Regex::new(pattern).is_ok()
}

/// Relies on `regex::Regex::is_match`: a deterministic function of the
/// pattern text and the haystack, true when the expression matches any
/// substring of the haystack.
#[verifier::external_body]
pub(crate) fn regex_match(pattern: &str, text: &str) -> (r: bool)
    requires
        regex_valid(pattern@),
    ensures
        r == regex_matches(pattern@, text@),
{
    regex::Regex::new(pattern).unwrap().is_match(text)
}

} // verus!
