//! Regular expressions, as the `regex` crate compiles and runs them.
//!
//! A pattern is compiled where it is used. What a search yields is named,
//! not described: the contracts of the callers speak of that name.

use vstd::prelude::*;

verus! {

/// What a `regex::Regex` compiled from `pattern` captures in `text`:
/// `None` where the pattern does not compile, `Some(None)` where it finds no
/// match, else the text of each group of the leftmost match, group 0 (the
/// whole match) first, with `None` for a group that took no part.
pub uninterp spec fn captured(pattern: Seq<char>, text: Seq<char>) -> Option<Option<Seq<Option<Seq<char>>>>>;

/// Whether a `regex::Regex` compiled from `pattern` finds a match anywhere
/// in `text`; `None` where the pattern does not compile.
pub uninterp spec fn pattern_found(pattern: Seq<char>, text: Seq<char>) -> Option<bool>;

/// The capture groups of one match, as texts.
pub open spec fn groups_view(groups: Seq<Option<String>>) -> Seq<Option<Seq<char>>> {
    groups.map_values(
        |g: Option<String>|
            match g {
                Some(t) => Some(t@),
                None => None,
            },
    )
}

/// The view of what `captures` returns.
pub open spec fn captures_view(r: Option<Option<Vec<Option<String>>>>) -> Option<Option<Seq<Option<Seq<char>>>>> {
    match r {
        None => None,
        Some(None) => Some(None),
        Some(Some(groups)) => Some(Some(groups_view(groups@))),
    }
}

/// `regex::Regex::new` and `Regex::captures`, with the groups of
/// `Captures::iter` copied out as text: the result is what the crate
/// captures, and `None` where it refuses the pattern.
#[verifier::external_body]
pub(crate) fn captures(pattern: &str, text: &str) -> (r: Option<Option<Vec<Option<String>>>>)
    ensures
        captures_view(r) == captured(pattern@, text@),
{
    match regex::Regex::new(pattern) {
        Ok(re) => Some(
            re.captures(text).map(|c| c.iter().map(|g| g.map(|m| m.as_str().to_string())).collect()),
        ),
        Err(_) => None,
    }
}

/// `regex::Regex::new` and `Regex::is_match`: whether the crate finds a
/// match, and `None` where it refuses the pattern.
#[verifier::external_body]
pub(crate) fn is_match(pattern: &str, text: &str) -> (r: Option<bool>)
    ensures
        r == pattern_found(pattern@, text@),
{
    match regex::Regex::new(pattern) {
        Ok(re) => Some(re.is_match(text)),
        Err(_) => None,
    }
}

} // verus!
