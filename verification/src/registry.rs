//! The registry of site parsers: which parser reads the pages of which host.

use vstd::prelude::*;
use crate::error::{CrawlError, CrawlErrorView};
use crate::record::Record;
use crate::text::{contains, has_substring};
use crate::usenix::{page_records, records_view, UsenixParser};
use crate::weburl::{parsed_url, WebUrl};

verus! {

/// The sites that the library can read.
#[derive(Debug, Clone, Copy, PartialEq, Eq, Structural)]
pub enum ParserKind {
    /// Technical-session listings of usenix.org.
    Usenix,
}

/// One line of the registry: hosts that contain `pattern` are read by `parser`.
pub struct Route {
    pub pattern: &'static str,
    pub parser: ParserKind,
}

impl ParserKind {
    /// Turns a page of the site into the records of its papers, with the
    /// site's parser.
    pub fn parse_and_extract(&self, html: &str, url: &str) -> (r: Result<Vec<Record>, CrawlError>)
        ensures
            exists|year: int| #[trigger] page_records(html@, url@, year) == records_view(r),
    {
        match self {
            ParserKind::Usenix => UsenixParser.parse_and_extract(html, url),
        }
    }
}

/// The registry as contracts see it: the lines in order, patterns as text.
pub open spec fn routes() -> Seq<(Seq<char>, ParserKind)> {
    seq![("usenix.org"@, ParserKind::Usenix)]
}

/// The first line among the first `upto` whose pattern occurs in `host`.
pub open spec fn first_match(table: Seq<(Seq<char>, ParserKind)>, host: Seq<char>, upto: int) -> Option<ParserKind>
    decreases upto,
{
    if upto <= 0 || upto > table.len() {
        None
    } else {
        match first_match(table, host, upto - 1) {
            Some(p) => Some(p),
            None => if has_substring(host, table[upto - 1].0) {
                Some(table[upto - 1].1)
            } else {
                None
            },
        }
    }
}

/// The parser registered for `host`: that of the first line that matches.
pub open spec fn parser_for_host(host: Seq<char>) -> Option<ParserKind> {
    first_match(routes(), host, routes().len() as int)
}

/// What `get_parser` answers for `url`.
pub open spec fn parser_for_url(url: Seq<char>) -> Result<ParserKind, CrawlErrorView> {
    match parsed_url(url) {
        Err(e) => Err(CrawlErrorView::Url(e)),
        Ok((_, host)) => {
            let host_text = match host {
                Some(h) => h,
                None => Seq::empty(),
            };
            match parser_for_host(host_text) {
                Some(p) => Ok(p),
                None => Err(CrawlErrorView::NoParserFound(url)),
            }
        },
    }
}

/// The view of what `get_parser` returns.
pub open spec fn selection_view(r: Result<ParserKind, CrawlError>) -> Result<ParserKind, CrawlErrorView> {
    match r {
        Ok(p) => Ok(p),
        Err(e) => Err(e@),
    }
}

/// The registry, in the order in which it is searched.
pub fn registry() -> (table: Vec<Route>)
    ensures
        table@.len() == routes().len(),
        forall|i: int| 0 <= i < table@.len() ==> (#[trigger] table@[i]).pattern@ == routes()[i].0
            && table@[i].parser == routes()[i].1,
{
    let mut table: Vec<Route> = Vec::new();
    table.push(Route { pattern: "usenix.org", parser: ParserKind::Usenix });
    table
}

/// The parser registered for `host`, if any line of the registry matches it.
pub fn select_parser(host: &str) -> (r: Option<ParserKind>)
    ensures
        r == parser_for_host(host@),
{
    let table = registry();
    let mut found: Option<ParserKind> = None;
    let mut i: usize = 0;
    while i < table.len()
        invariant
            i <= table@.len(),
            table@.len() == routes().len(),
            forall|k: int| 0 <= k < table@.len() ==> (#[trigger] table@[k]).pattern@ == routes()[k].0
                && table@[k].parser == routes()[k].1,
            found == first_match(routes(), host@, i as int),
        decreases table@.len() - i,
    {
        if found.is_none() && contains(host, table[i].pattern) {
            found = Some(table[i].parser);
        }
        i = i + 1;
    }
    found
}

/// Chooses the parser for `url` by its host.
///
/// Fails with `Url` where the URL does not parse, and with `NoParserFound`,
/// holding the URL, where no line of the registry matches the host. A URL
/// without a host is matched as if its host were empty.
pub fn get_parser(url: &str) -> (r: Result<ParserKind, CrawlError>)
    ensures
        selection_view(r) == parser_for_url(url@),
{
    match WebUrl::parse(url) {
        Err(e) => Err(CrawlError::Url(e)),
        Ok(parsed) => {
            let found = match &parsed.host {
                Some(h) => select_parser(h.as_str()),
                None => {
                    proof {
                        reveal_strlit("");
                    }
                    assert(""@ =~= Seq::<char>::empty());
                    select_parser("")
                },
            };
            match found {
                Some(p) => Ok(p),
                None => Err(CrawlError::NoParserFound(url.to_owned())),
            }
        },
    }
}

/// The first line that matches wins: a host gets the parser of the line
/// before which no line matches it, and no parser where no line matches.
pub proof fn law_first_match_wins(table: Seq<(Seq<char>, ParserKind)>, host: Seq<char>, upto: int)
    requires
        0 <= upto <= table.len(),
    ensures
        match first_match(table, host, upto) {
            Some(p) => exists|i: int|
                0 <= i < upto && #[trigger] has_substring(host, table[i].0) && table[i].1 == p
                    && forall|k: int| 0 <= k < i ==> !has_substring(host, #[trigger] table[k].0),
            None => forall|k: int| 0 <= k < upto ==> !has_substring(host, #[trigger] table[k].0),
        },
    decreases upto,
{
    if upto > 0 {
        law_first_match_wins(table, host, upto - 1);
        match first_match(table, host, upto - 1) {
            Some(p) => {
                let i = choose|i: int|
                    0 <= i < upto - 1 && #[trigger] has_substring(host, table[i].0) && table[i].1
                        == p && forall|k: int|
                        0 <= k < i ==> !has_substring(host, #[trigger] table[k].0);
                assert(0 <= i < upto && has_substring(host, table[i].0) && table[i].1 == p);
            },
            None => {
                if has_substring(host, table[upto - 1].0) {
                    let i = upto - 1;
                    assert(0 <= i < upto && has_substring(host, table[i].0));
                }
            },
        }
    }
}

} // verus!
