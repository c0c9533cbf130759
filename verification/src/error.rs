//! The errors of a crawl.
//!
//! Errors that begin outside the library (a failed request, a failed
//! statement, a URL that does not parse) are held by their message.

use vstd::prelude::*;
use crate::text::prefixed;

verus! {

/// Why a URL, or a whole batch, could not be processed.
#[derive(Debug, Clone, PartialEq, Eq)]
pub enum CrawlError {
    /// The request failed in transport; holds the client's message.
    Fetch(String),
    /// The server answered with a status that is no success.
    Http(String),
    /// The page lacks something the parser cannot do without.
    Parse(String),
    /// The store failed; holds the store's message. The only fatal error.
    Database(String),
    /// The URL does not parse; holds the parser's message.
    Url(String),
    /// No site parser is registered for the URL's host; holds the URL.
    NoParserFound(String),
}

/// A `CrawlError` with its texts as character sequences.
pub enum CrawlErrorView {
    Fetch(Seq<char>),
    Http(Seq<char>),
    Parse(Seq<char>),
    Database(Seq<char>),
    Url(Seq<char>),
    NoParserFound(Seq<char>),
}

impl View for CrawlError {
    type V = CrawlErrorView;

    open spec fn view(&self) -> CrawlErrorView {
        match self {
            CrawlError::Fetch(e) => CrawlErrorView::Fetch(e@),
            CrawlError::Http(s) => CrawlErrorView::Http(s@),
            CrawlError::Parse(s) => CrawlErrorView::Parse(s@),
            CrawlError::Database(e) => CrawlErrorView::Database(e@),
            CrawlError::Url(e) => CrawlErrorView::Url(e@),
            CrawlError::NoParserFound(url) => CrawlErrorView::NoParserFound(url@),
        }
    }
}

impl CrawlErrorView {
    /// The one-line rendering of the error.
    pub open spec fn message(self) -> Seq<char> {
        match self {
            CrawlErrorView::Fetch(e) => "Failed to fetch URL: "@ + e,
            CrawlErrorView::Http(s) => "HTTP error: "@ + s,
            CrawlErrorView::Parse(s) => "Parsing error: "@ + s,
            CrawlErrorView::Database(e) => "Database error: "@ + e,
            CrawlErrorView::Url(e) => "Invalid URL: "@ + e,
            CrawlErrorView::NoParserFound(url) => "No parser found for URL: "@ + url,
        }
    }

    /// The message of the outside error behind this one, where there is one.
    pub open spec fn source(self) -> Option<Seq<char>> {
        match self {
            CrawlErrorView::Fetch(e) => Some(e),
            CrawlErrorView::Database(e) => Some(e),
            CrawlErrorView::Url(e) => Some(e),
            _ => None,
        }
    }

    /// Whether the error ends the whole batch. Only a store failure does.
    pub open spec fn is_fatal(self) -> bool {
        self is Database
    }
}

impl CrawlError {
    /// The one-line rendering of the error.
    pub fn message(&self) -> (r: String)
        ensures
            r@ == self@.message(),
    {
        match self {
            CrawlError::Fetch(e) => prefixed("Failed to fetch URL: ", e.as_str()),
            CrawlError::Http(s) => prefixed("HTTP error: ", s.as_str()),
            CrawlError::Parse(s) => prefixed("Parsing error: ", s.as_str()),
            CrawlError::Database(e) => prefixed("Database error: ", e.as_str()),
            CrawlError::Url(e) => prefixed("Invalid URL: ", e.as_str()),
            CrawlError::NoParserFound(url) => prefixed("No parser found for URL: ", url.as_str()),
        }
    }

    /// The message of the outside error behind this one, where there is one.
    pub fn source(&self) -> (r: Option<&String>)
        ensures
            match r {
                Some(e) => self@.source() == Some(e@),
                None => self@.source() is None,
            },
    {
        match self {
            CrawlError::Fetch(e) => Some(e),
            CrawlError::Database(e) => Some(e),
            CrawlError::Url(e) => Some(e),
            _ => None,
        }
    }

    /// A copy of the error.
    pub fn duplicate(&self) -> (r: CrawlError)
        ensures
            r@ == self@,
    {
        match self {
            CrawlError::Fetch(e) => CrawlError::Fetch(e.clone()),
            CrawlError::Http(s) => CrawlError::Http(s.clone()),
            CrawlError::Parse(s) => CrawlError::Parse(s.clone()),
            CrawlError::Database(e) => CrawlError::Database(e.clone()),
            CrawlError::Url(e) => CrawlError::Url(e.clone()),
            CrawlError::NoParserFound(url) => CrawlError::NoParserFound(url.clone()),
        }
    }
}

} // verus!
