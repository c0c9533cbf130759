//! Absolute URLs, as the `url` crate parses and resolves them.
//!
//! The library keeps of a parsed URL what its logic reads: the normalized
//! text and the host. Parsing and resolving are the `url` crate's work; the
//! contracts name their results without saying how they come about.

use vstd::prelude::*;
use crate::text::text_view;

verus! {

/// What `url::Url::parse` makes of `input`: the normalized text of the URL
/// and its host, where it has one, or the text of the parse error.
pub uninterp spec fn parsed_url(input: Seq<char>) -> Result<(Seq<char>, Option<Seq<char>>), Seq<char>>;

/// What `url::Url::join` makes of `reference` on the URL with the text
/// `base`: the text of the resolved URL, or the text of the parse error.
pub uninterp spec fn joined_url(base: Seq<char>, reference: Seq<char>) -> Result<Seq<char>, Seq<char>>;

/// An absolute URL that has been parsed.
#[derive(Debug, Clone, PartialEq, Eq)]
pub struct WebUrl {
    /// The URL in its normalized form.
    pub text: String,
    /// The host, where the URL has one.
    pub host: Option<String>,
}

impl View for WebUrl {
    type V = (Seq<char>, Option<Seq<char>>);

    open spec fn view(&self) -> (Seq<char>, Option<Seq<char>>) {
        (self.text@, text_view(self.host))
    }
}

/// The view of the result of parsing or resolving.
pub open spec fn parsed_view(r: Result<WebUrl, String>) -> Result<(Seq<char>, Option<Seq<char>>), Seq<char>> {
    match r {
        Ok(u) => Ok(u@),
        Err(e) => Err(e@),
    }
}

/// The view of a result that holds text either way.
pub open spec fn text_result_view(r: Result<String, String>) -> Result<Seq<char>, Seq<char>> {
    match r {
        Ok(t) => Ok(t@),
        Err(e) => Err(e@),
    }
}

/// `url::Url::parse`, with `as_str` and `host_str` on the parsed URL and
/// `to_string` on the error: the result is what the crate makes of the input.
#[verifier::external_body]
pub(crate) fn parse_url(input: &str) -> (r: Result<WebUrl, String>)
    ensures
        parsed_view(r) == parsed_url(input@),
{
    match url::Url::parse(input) {
        Ok(u) => Ok(WebUrl { text: u.as_str().to_string(), host: u.host_str().map(|h| h.to_string()) }),
        Err(e) => Err(e.to_string()),
    }
}

/// `url::Url::join` on the URL parsed from `base`, with `to_string` on the
/// resolved URL or on the error: the result is what the crate makes of the two.
#[verifier::external_body]
pub(crate) fn join_url(base: &str, reference: &str) -> (r: Result<String, String>)
    ensures
        text_result_view(r) == joined_url(base@, reference@),
{
    match url::Url::parse(base).and_then(|b| b.join(reference)) {
        Ok(u) => Ok(u.to_string()),
        Err(e) => Err(e.to_string()),
    }
}

impl WebUrl {
    /// Parses an absolute URL.
    pub fn parse(input: &str) -> (r: Result<WebUrl, String>)
        ensures
            parsed_view(r) == parsed_url(input@),
    {
        parse_url(input)
    }

    /// Resolves `reference` against this URL.
    pub fn join(&self, reference: &str) -> (r: Result<String, String>)
        ensures
            text_result_view(r) == joined_url(self.text@, reference@),
    {
        join_url(self.text.as_str(), reference)
    }
}

} // verus!
