//! The parser for the technical-session listings of usenix.org.
//!
//! A listing page names the conference in its `<title>` and holds one
//! `article.node-paper` per paper. The parser takes from an outline of the
//! page the few texts it needs of each entry, and builds one record per
//! entry from them. A field that the page does not give is filled with a
//! placeholder: no entry is ever dropped and no field left out.

use vstd::prelude::*;
use vstd::string::*;
use chrono::Datelike;
use crate::error::{CrawlError, CrawlErrorView};
use crate::html::{fields_view, found_view, outline, outlined, Inner, InnerView};
use crate::pattern::{captured, captures, groups_view};
use crate::record::{views_of, Record, RecordView};
use crate::text::{
    before_delimiter, before_first, join, joined, text_view, texts_view, trimmed, trimmed_string,
};
use crate::weburl::{joined_url, parsed_url, WebUrl};

verus! {

/// The title of an entry without a heading link.
pub const TITLE_NOT_FOUND: &'static str = "Paper title not found";

/// The URL of an entry without a heading link, or whose link has no `href`.
pub const URL_NOT_FOUND: &'static str = "Paper URL not found";

/// The authors of an entry without an author block.
pub const AUTHORS_NOT_FOUND: &'static str = "Authors not found";

/// The abstract of an entry without an abstract, or with an empty one.
pub const ABSTRACT_NOT_FOUND: &'static str = "Abstract not found";

/// The message of the error for a page without a `<title>`.
pub const MISSING_PAGE_TITLE: &'static str = "missing page title";

/// Finds the conference's name and its two-digit year in a page title.
pub const CONFERENCE_PATTERN: &'static str = "^(.*?)\\s+'?(\\d{2})";

/// Selects the container of one paper.
pub const ARTICLE_SELECTOR: &'static str = "article.node-paper";

/// Selects, inside an entry, the link in its heading.
pub const TITLE_LINK_SELECTOR: &'static str = "h2 a";

/// Selects, inside an entry, the author block under either of its two markers.
pub const AUTHORS_SELECTOR: &'static str =
    "div.field-name-field-paper-people-text p, div.field-name-field-presented-by p";

/// Selects, inside an entry, the container of the abstract.
pub const ABSTRACT_SELECTOR: &'static str = "div.field-name-field-paper-description-long";

/// Selects, inside the abstract's container, its paragraphs.
pub const PARAGRAPH_SELECTOR: &'static str = "p";

/// Selects the page's title.
pub const PAGE_TITLE_SELECTOR: &'static str = "head > title";

/// Selects the root element of the page.
pub const ROOT_SELECTOR: &'static str = ":root";

/// The attribute of a link that names its target.
pub const LINK_ATTRIBUTE: &'static str = "href";

/// The message of the error for a selector that does not compile.
pub const INVALID_SELECTOR: &'static str = "invalid selector";

/// The heading link of an entry: its text and the target it names.
#[derive(Debug, Clone, PartialEq, Eq)]
pub struct LinkFacts {
    pub text: String,
    pub href: Option<String>,
}

/// What the parser reads of one entry, before any rule is applied.
#[derive(Debug, Clone, PartialEq, Eq)]
pub struct EntryFacts {
    /// The first heading link, if the entry has one.
    pub link: Option<LinkFacts>,
    /// The text of the first author block, if the entry has one.
    pub authors: Option<String>,
    /// The texts of the paragraphs of the first abstract container, if the
    /// entry has one.
    pub paragraphs: Option<Vec<String>>,
}

/// A `LinkFacts` with its texts as character sequences.
pub struct LinkFactsView {
    pub text: Seq<char>,
    pub href: Option<Seq<char>>,
}

/// An `EntryFacts` with its texts as character sequences.
pub struct EntryFactsView {
    pub link: Option<LinkFactsView>,
    pub authors: Option<Seq<char>>,
    pub paragraphs: Option<Seq<Seq<char>>>,
}

impl View for LinkFacts {
    type V = LinkFactsView;

    open spec fn view(&self) -> LinkFactsView {
        LinkFactsView { text: self.text@, href: text_view(self.href) }
    }
}

impl View for EntryFacts {
    type V = EntryFactsView;

    open spec fn view(&self) -> EntryFactsView {
        EntryFactsView {
            link: match self.link {
                Some(l) => Some(l@),
                None => None,
            },
            authors: text_view(self.authors),
            paragraphs: match self.paragraphs {
                Some(p) => Some(texts_view(p@)),
                None => None,
            },
        }
    }
}

/// The views of `entries`, in order.
pub open spec fn entries_view(entries: Seq<EntryFacts>) -> Seq<EntryFactsView> {
    entries.map_values(|e: EntryFacts| e@)
}

/// The view of what the parser returns.
pub open spec fn records_view(r: Result<Vec<Record>, CrawlError>) -> Result<Seq<RecordView>, CrawlErrorView> {
    match r {
        Ok(records) => Ok(views_of(records@)),
        Err(e) => Err(e@),
    }
}

/// The view of a text or an error.
pub open spec fn text_or_error_view(r: Result<String, CrawlError>) -> Result<Seq<char>, CrawlErrorView> {
    match r {
        Ok(t) => Ok(t@),
        Err(e) => Err(e@),
    }
}

/// Whether `c` is one of the digits `0` to `9`.
pub open spec fn is_ascii_digit(c: char) -> bool {
    '0' <= c && c <= '9'
}

/// The number that the digit `c` stands for.
pub open spec fn digit_value(c: char) -> int {
    c as int - '0' as int
}

/// The number written by `text` where it is two digits, else zero.
pub open spec fn year_suffix(text: Seq<char>) -> int {
    if text.len() == 2 && is_ascii_digit(text[0]) && is_ascii_digit(text[1]) {
        10 * digit_value(text[0]) + digit_value(text[1])
    } else {
        0
    }
}

/// The text of group `i` of a match; `None` where the match has no such
/// group or the group took no part in it.
pub open spec fn group_text(groups: Seq<Option<Seq<char>>>, i: int) -> Option<Seq<char>> {
    if 0 <= i < groups.len() {
        groups[i]
    } else {
        None
    }
}

/// The conference's name and year, from what the title pattern captured in
/// the page title.
///
/// With a match, the name is the first group trimmed and the year is 2000
/// plus the two digits of the second. Without one, the name is what stands
/// before the first `|` of the title, trimmed, and the year is the current
/// one.
pub open spec fn conference_info(
    groups: Option<Seq<Option<Seq<char>>>>,
    page_title: Seq<char>,
    current_year: int,
) -> (Seq<char>, int) {
    match groups {
        Some(g) => (
            trimmed(
                match group_text(g, 1) {
                    Some(t) => t,
                    None => Seq::empty(),
                },
            ),
            2000 + match group_text(g, 2) {
                Some(t) => year_suffix(t),
                None => 0,
            },
        ),
        None => (trimmed(before_first(page_title, '|')), current_year),
    }
}

/// The groups of the title pattern's match in `page_title`; `None` where
/// there is no match.
pub open spec fn title_groups(page_title: Seq<char>) -> Option<Seq<Option<Seq<char>>>> {
    match captured(CONFERENCE_PATTERN@, page_title) {
        Some(Some(g)) => Some(g),
        _ => None,
    }
}

/// The page's title from the text of its title element.
pub open spec fn page_title_of(found: Option<Seq<char>>) -> Result<Seq<char>, CrawlErrorView> {
    match found {
        Some(t) => Ok(trimmed(t)),
        None => Err(CrawlErrorView::Parse(MISSING_PAGE_TITLE@)),
    }
}

/// The title of an entry: the trimmed text of its heading link.
pub open spec fn title_of(link: Option<LinkFactsView>) -> Seq<char> {
    match link {
        Some(l) => trimmed(l.text),
        None => TITLE_NOT_FOUND@,
    }
}

/// The text that stands for a link target which does not resolve.
pub open spec fn join_failure(href: Seq<char>, base: Seq<char>, error: Seq<char>) -> Seq<char> {
    "Failed to join URL: "@ + href + " with base "@ + base + ": "@ + error
}

/// The URL of an entry: the target of its heading link, resolved against
/// the page's URL.
pub open spec fn source_url_of(base: Seq<char>, link: Option<LinkFactsView>) -> Seq<char> {
    match link {
        Some(l) => match l.href {
            Some(href) => match joined_url(base, href) {
                Ok(u) => u,
                Err(e) => join_failure(href, base, e),
            },
            None => URL_NOT_FOUND@,
        },
        None => URL_NOT_FOUND@,
    }
}

/// The authors of an entry: the trimmed text of its author block.
pub open spec fn authors_of(authors: Option<Seq<char>>) -> Seq<char> {
    match authors {
        Some(t) => trimmed(t),
        None => AUTHORS_NOT_FOUND@,
    }
}

/// The abstract of an entry: its paragraphs, one per line, trimmed as a whole.
pub open spec fn abstract_of(paragraphs: Option<Seq<Seq<char>>>) -> Seq<char> {
    match paragraphs {
        Some(p) => {
            let text = trimmed(joined(p, "\n"@));
            if text.len() == 0 {
                ABSTRACT_NOT_FOUND@
            } else {
                text
            }
        },
        None => ABSTRACT_NOT_FOUND@,
    }
}

/// The record of one entry of a page of the conference `conference_name`
/// of `year`, whose URL has the normalized text `base`.
pub open spec fn record_of(
    conference_name: Seq<char>,
    year: int,
    base: Seq<char>,
    entry: EntryFactsView,
) -> RecordView {
    RecordView {
        conference_name,
        year,
        title: title_of(entry.link),
        source_url: source_url_of(base, entry.link),
        authors: authors_of(entry.authors),
        abstract_text: abstract_of(entry.paragraphs),
    }
}

/// One record per entry, in the order of the entries.
pub open spec fn records_of(
    conference_name: Seq<char>,
    year: int,
    base: Seq<char>,
    entries: Seq<EntryFactsView>,
) -> Seq<RecordView> {
    entries.map_values(|e: EntryFactsView| record_of(conference_name, year, base, e))
}

/// What is asked of each entry: the heading link, the author block and
/// the abstract container.
pub open spec fn entry_fields() -> Seq<Seq<char>> {
    seq![TITLE_LINK_SELECTOR@, AUTHORS_SELECTOR@, ABSTRACT_SELECTOR@]
}

/// The first element found for field `field`, if any was.
pub open spec fn first_inner(found: Seq<Seq<InnerView>>, field: int) -> Option<InnerView> {
    if 0 <= field < found.len() && found[field].len() > 0 {
        Some(found[field][0])
    } else {
        None
    }
}

/// The facts of an entry, from what was found inside it: the first heading
/// link with its target, the text of the first author block, and the
/// paragraphs of the first abstract container.
pub open spec fn entry_facts(found: Seq<Seq<InnerView>>) -> EntryFactsView {
    EntryFactsView {
        link: match first_inner(found, 0) {
            Some(link) => Some(LinkFactsView { text: link.text, href: link.attr }),
            None => None,
        },
        authors: match first_inner(found, 1) {
            Some(block) => Some(block.text),
            None => None,
        },
        paragraphs: match first_inner(found, 2) {
            Some(container) => Some(container.parts),
            None => None,
        },
    }
}

/// The facts of the entries of the page `html`, in document order; `None`
/// where a selector does not compile.
pub open spec fn page_entries(html: Seq<char>) -> Option<Seq<EntryFactsView>> {
    match outlined(html, ARTICLE_SELECTOR@, entry_fields(), PARAGRAPH_SELECTOR@, LINK_ATTRIBUTE@) {
        Some(matched) => Some(matched.map_values(|found: Seq<Seq<InnerView>>| entry_facts(found))),
        None => None,
    }
}

/// The text of the first title element in the head of the page `html`, if
/// it has one; `None` where a selector does not compile.
pub open spec fn page_title_text(html: Seq<char>) -> Option<Option<Seq<char>>> {
    match outlined(
        html,
        ROOT_SELECTOR@,
        seq![PAGE_TITLE_SELECTOR@],
        PARAGRAPH_SELECTOR@,
        LINK_ATTRIBUTE@,
    ) {
        Some(matched) => Some(
            if matched.len() > 0 {
                match first_inner(matched[0], 0) {
                    Some(title) => Some(title.text),
                    None => None,
                }
            } else {
                None
            },
        ),
        None => None,
    }
}

/// The title of the page `html`: the trimmed text of its first title element.
pub open spec fn page_title(html: Seq<char>) -> Result<Seq<char>, CrawlErrorView> {
    match page_title_text(html) {
        Some(found) => page_title_of(found),
        None => Err(CrawlErrorView::Parse(INVALID_SELECTOR@)),
    }
}

/// The records of the entries of the page `html`, under the given
/// conference and year, with links resolved against `base`.
pub open spec fn page_papers(conference_name: Seq<char>, year: int, base: Seq<char>, html: Seq<char>) -> Result<
    Seq<RecordView>,
    CrawlErrorView,
> {
    match page_entries(html) {
        Some(entries) => Ok(records_of(conference_name, year, base, entries)),
        None => Err(CrawlErrorView::Parse(INVALID_SELECTOR@)),
    }
}

/// What the parser returns for the page `html` at `url`, read in the year
/// `current_year`.
///
/// The URL must parse and the page have a title; the first of the two that
/// fails gives the error. Else there is one record per entry, all under the
/// conference and year of the title.
pub open spec fn page_records(html: Seq<char>, url: Seq<char>, current_year: int) -> Result<
    Seq<RecordView>,
    CrawlErrorView,
> {
    match parsed_url(url) {
        Err(e) => Err(CrawlErrorView::Url(e)),
        Ok((base, _)) => match page_title(html) {
            Err(e) => Err(e),
            Ok(title) => {
                let info = conference_info(title_groups(title), title, current_year);
                page_papers(info.0, info.1, base, html)
            },
        },
    }
}

/// `chrono::Utc::now` and `Datelike::year`: the calendar year of the
/// moment of the call, in UTC. Nothing is claimed of it.
#[verifier::external_body]
pub(crate) fn current_year() -> i32 {
    chrono::Utc::now().year()
}

/// The number written by `text` where it is two digits, else zero.
pub fn year_suffix_of(text: &str) -> (r: i32)
    ensures
        r == year_suffix(text@),
        0 <= r <= 99,
{
    if text.unicode_len() != 2 {
        return 0;
    }
    let tens = text.get_char(0);
    let ones = text.get_char(1);
    if '0' <= tens && tens <= '9' && '0' <= ones && ones <= '9' {
        let t: u32 = tens as u32 - '0' as u32;
        let o: u32 = ones as u32 - '0' as u32;
        (10 * t + o) as i32
    } else {
        0
    }
}

/// The conference's name and year from what the title pattern captured.
///
/// `groups` holds the groups of the match, the whole match first, or is
/// `None` where the pattern found nothing in `page_title`.
pub fn conference_info_from(
    groups: &Option<Vec<Option<String>>>,
    page_title: &str,
    current_year: i32,
) -> (r: (String, i32))
    ensures
        (r.0@, r.1 as int) == conference_info(
            match groups {
                Some(g) => Some(groups_view(g@)),
                None => None,
            },
            page_title@,
            current_year as int,
        ),
{
    match groups {
        Some(g) => {
            let name = if g.len() > 1 {
                match &g[1] {
                    Some(t) => trimmed_string(t.as_str()),
                    None => String::new(),
                }
            } else {
                String::new()
            };
            let short = if g.len() > 2 {
                match &g[2] {
                    Some(t) => year_suffix_of(t.as_str()),
                    None => 0,
                }
            } else {
                0
            };
            (name, 2000 + short)
        },
        None => (trimmed_string(before_delimiter(page_title, '|')), current_year),
    }
}

/// The page's title from the text of its title element, if it has one.
///
/// Fails with `Parse` where the page has no title element.
pub fn page_title_from(found: Option<String>) -> (r: Result<String, CrawlError>)
    ensures
        text_or_error_view(r) == page_title_of(text_view(found)),
{
    match found {
        Some(t) => Ok(trimmed_string(t.as_str())),
        None => Err(CrawlError::Parse(MISSING_PAGE_TITLE.to_owned())),
    }
}

/// The text that stands for a link target which does not resolve.
fn join_failure_text(href: &str, base: &str, error: &str) -> (r: String)
    ensures
        r@ == join_failure(href@, base@, error@),
{
    let mut out = "Failed to join URL: ".to_owned();
    out.append(href);
    out.append(" with base ");
    out.append(base);
    out.append(": ");
    out.append(error);
    out
}

/// The record of one entry.
///
/// The title is the trimmed text of the heading link and the URL its
/// target resolved against `base`; the authors are the trimmed text of the
/// author block; the abstract is the paragraphs, one per line, trimmed. What
/// the entry lacks is replaced by the placeholder of the field, as is an
/// abstract that is empty. A target that does not resolve is replaced by a
/// text that says so.
pub fn record_from_entry(conference_name: &str, year: i32, base: &WebUrl, entry: &EntryFacts) -> (r:
    Record)
    ensures
        r@ == record_of(conference_name@, year as int, base.text@, entry@),
{
    let mut title = TITLE_NOT_FOUND.to_owned();
    let mut source_url = URL_NOT_FOUND.to_owned();
    match &entry.link {
        Some(link) => {
            title = trimmed_string(link.text.as_str());
            match &link.href {
                Some(href) => {
                    source_url =
                    match base.join(href.as_str()) {
                        Ok(full) => full,
                        Err(e) => join_failure_text(href.as_str(), base.text.as_str(), e.as_str()),
                    };
                },
                None => {},
            }
        },
        None => {},
    }
    let authors = match &entry.authors {
        Some(t) => trimmed_string(t.as_str()),
        None => AUTHORS_NOT_FOUND.to_owned(),
    };
    let abstract_text = match &entry.paragraphs {
        Some(p) => {
            let whole = join(p, "\n");
            let text = trimmed_string(whole.as_str());
            if text.as_str().is_empty() {
                ABSTRACT_NOT_FOUND.to_owned()
            } else {
                text
            }
        },
        None => ABSTRACT_NOT_FOUND.to_owned(),
    };
    Record {
        conference_name: conference_name.to_owned(),
        year,
        title,
        source_url,
        authors,
        abstract_text,
    }
}

/// One record per entry, in the order of the entries.
pub fn records_from_entries(
    conference_name: &str,
    year: i32,
    base: &WebUrl,
    entries: &Vec<EntryFacts>,
) -> (r: Vec<Record>)
    ensures
        views_of(r@) == records_of(
            conference_name@,
            year as int,
            base.text@,
            entries_view(entries@),
        ),
{
    let mut records: Vec<Record> = Vec::new();
    let mut i: usize = 0;
    while i < entries.len()
        invariant
            i <= entries.len(),
            records@.len() == i,
            forall|k: int|
                0 <= k < i ==> (#[trigger] records@[k])@ == record_of(
                    conference_name@,
                    year as int,
                    base.text@,
                    entries@[k]@,
                ),
        decreases entries.len() - i,
    {
        let record = record_from_entry(conference_name, year, base, &entries[i]);
        records.push(record);
        i = i + 1;
    }
    assert(views_of(records@) =~= records_of(
        conference_name@,
        year as int,
        base.text@,
        entries_view(entries@),
    ));
    records
}

/// A copy of `texts`.
fn copy_texts(texts: &Vec<String>) -> (r: Vec<String>)
    ensures
        texts_view(r@) == texts_view(texts@),
{
    let mut out: Vec<String> = Vec::new();
    let mut i: usize = 0;
    while i < texts.len()
        invariant
            i <= texts.len(),
            out@.len() == i,
            forall|k: int| 0 <= k < i ==> (#[trigger] out@[k])@ == texts@[k]@,
        decreases texts.len() - i,
    {
        out.push(texts[i].clone());
        i = i + 1;
    }
    assert(texts_view(out@) =~= texts_view(texts@));
    out
}

/// The facts of an entry, from what was found inside it for the heading
/// link, the author block and the abstract container, in this order.
pub fn entry_from_outline(found: &Vec<Vec<Inner>>) -> (r: EntryFacts)
    ensures
        r@ == entry_facts(found_view(*found)),
{
    let link = if found.len() > 0 && found[0].len() > 0 {
        let first = &found[0][0];
        let href = match &first.attr {
            Some(target) => Some(target.clone()),
            None => None,
        };
        Some(LinkFacts { text: first.text.clone(), href })
    } else {
        None
    };
    let authors = if found.len() > 1 && found[1].len() > 0 {
        Some(found[1][0].text.clone())
    } else {
        None
    };
    let paragraphs = if found.len() > 2 && found[2].len() > 0 {
        Some(copy_texts(&found[2][0].parts))
    } else {
        None
    };
    EntryFacts { link, authors, paragraphs }
}

/// The view of facts or an error.
pub open spec fn entries_or_error_view(r: Result<Vec<EntryFacts>, CrawlError>) -> Result<
    Seq<EntryFactsView>,
    CrawlErrorView,
> {
    match r {
        Ok(entries) => Ok(entries_view(entries@)),
        Err(e) => Err(e@),
    }
}

/// The facts of every entry of the page, in document order.
pub fn read_entries(html: &str) -> (r: Result<Vec<EntryFacts>, CrawlError>)
    ensures
        entries_or_error_view(r) == match page_entries(html@) {
            Some(entries) => Ok::<Seq<EntryFactsView>, CrawlErrorView>(entries),
            None => Err(CrawlErrorView::Parse(INVALID_SELECTOR@)),
        },
{
    let fields = vec![TITLE_LINK_SELECTOR, AUTHORS_SELECTOR, ABSTRACT_SELECTOR];
    assert(fields_view(fields@) =~= entry_fields());
    match outline(html, ARTICLE_SELECTOR, &fields, PARAGRAPH_SELECTOR, LINK_ATTRIBUTE) {
        None => Err(CrawlError::Parse(INVALID_SELECTOR.to_owned())),
        Some(matched) => {
            let mut entries: Vec<EntryFacts> = Vec::new();
            let mut i: usize = 0;
            while i < matched.len()
                invariant
                    i <= matched.len(),
                    entries@.len() == i,
                    forall|k: int|
                        0 <= k < i ==> (#[trigger] entries@[k])@ == entry_facts(
                            found_view(matched@[k]),
                        ),
                decreases matched.len() - i,
            {
                entries.push(entry_from_outline(&matched[i]));
                i = i + 1;
            }
            assert(entries_view(entries@) =~= matched@.map_values(
                |found: Vec<Vec<Inner>>| found_view(found),
            ).map_values(|found: Seq<Seq<InnerView>>| entry_facts(found)));
            Ok(entries)
        },
    }
}

/// The parser for the technical-session listings of usenix.org.
#[derive(Debug, Clone, Copy, PartialEq, Eq)]
pub struct UsenixParser;

impl UsenixParser {
    /// Turns a listing page into the records of its papers.
    ///
    /// Fails with `Url` where `url` does not parse and with `Parse` where
    /// the page has no title. Else it returns one record per entry, in
    /// document order; a page without entries gives no records and no error.
    /// The year of the call is used only where the title names none.
    pub fn parse_and_extract(&self, html: &str, url: &str) -> (r: Result<Vec<Record>, CrawlError>)
        ensures
            exists|year: int| #[trigger] page_records(html@, url@, year) == records_view(r),
    {
        let now = current_year();
        let r = self.parse_in_year(html, url, now);
        assert(page_records(html@, url@, now as int) == records_view(r));
        r
    }

    /// Turns a listing page into the records of its papers, as
    /// `parse_and_extract` does in the year `current_year`.
    pub fn parse_in_year(&self, html: &str, url: &str, current_year: i32) -> (r: Result<
        Vec<Record>,
        CrawlError,
    >)
        ensures
            records_view(r) == page_records(html@, url@, current_year as int),
    {
        let base = match WebUrl::parse(url) {
            Ok(b) => b,
            Err(e) => {
                return Err(CrawlError::Url(e));
            },
        };
        let page_title = match UsenixParser::extract_page_title(html) {
            Ok(t) => t,
            Err(e) => {
                return Err(e);
            },
        };
        let groups = UsenixParser::title_match(page_title.as_str());
        let info = conference_info_from(&groups, page_title.as_str(), current_year);
        UsenixParser::extract_papers(html, info.0.as_str(), info.1, &base)
    }

    /// What the title pattern captures in the page title, if it matches.
    fn title_match(page_title: &str) -> (r: Option<Vec<Option<String>>>)
        ensures
            title_groups(page_title@) == match r {
                Some(g) => Some(groups_view(g@)),
                None => None,
            },
    {
        match captures(CONFERENCE_PATTERN, page_title) {
            Some(Some(g)) => Some(g),
            _ => None,
        }
    }

    /// The page's title: the trimmed text of the first title element.
    ///
    /// Fails with `Parse` where the page has none.
    pub fn extract_page_title(html: &str) -> (r: Result<String, CrawlError>)
        ensures
            text_or_error_view(r) == page_title(html@),
    {
        let fields = vec![PAGE_TITLE_SELECTOR];
        assert(fields_view(fields@) =~= seq![PAGE_TITLE_SELECTOR@]);
        match outline(html, ROOT_SELECTOR, &fields, PARAGRAPH_SELECTOR, LINK_ATTRIBUTE) {
            None => Err(CrawlError::Parse(INVALID_SELECTOR.to_owned())),
            Some(matched) => {
                let first = if matched.len() > 0 && matched[0].len() > 0 && matched[0][0].len() > 0 {
                    Some(matched[0][0][0].text.clone())
                } else {
                    None
                };
                page_title_from(first)
            },
        }
    }

    /// The conference's name and year from the page title.
    ///
    /// Where the title pattern matches, both come from the title. Where it
    /// does not, the name is what stands before the first `|` and the year
    /// is the current one.
    pub fn extract_conference_info(page_title: &str) -> (r: (String, i32))
        ensures
            exists|year: int| #[trigger]
                conference_info(title_groups(page_title@), page_title@, year) == (r.0@, r.1 as int),
            title_groups(page_title@) is Some ==> conference_info(
                title_groups(page_title@),
                page_title@,
                0,
            ) == (r.0@, r.1 as int),
    {
        let now = current_year();
        let groups = UsenixParser::title_match(page_title);
        let r = conference_info_from(&groups, page_title, now);
        assert(conference_info(title_groups(page_title@), page_title@, now as int) == (
            r.0@,
            r.1 as int,
        ));
        r
    }

    /// One record per entry of the page, in document order.
    ///
    /// An entry that lacks a field gets the field's placeholder, and a page
    /// without entries gives no records.
    pub fn extract_papers(html: &str, conference_name: &str, year: i32, base: &WebUrl) -> (r: Result<
        Vec<Record>,
        CrawlError,
    >)
        ensures
            records_view(r) == page_papers(conference_name@, year as int, base.text@, html@),
    {
        match read_entries(html) {
            Err(e) => Err(e),
            Ok(entries) => Ok(records_from_entries(conference_name, year, base, &entries)),
        }
    }
}

/// A page without entries gives no records, and no error: for every page
/// that has a title, at every URL that parses.
pub proof fn law_page_without_entries_gives_no_records(html: Seq<char>, url: Seq<char>, year: int)
    requires
        page_entries(html) == Some(Seq::<EntryFactsView>::empty()),
        page_title(html) is Ok,
        parsed_url(url) is Ok,
    ensures
        page_records(html, url, year) == Ok::<Seq<RecordView>, CrawlErrorView>(Seq::empty()),
{
    let title = page_title(html)->Ok_0;
    let info = conference_info(title_groups(title), title, year);
    assert(records_of(info.0, info.1, parsed_url(url)->Ok_0.0, Seq::empty()) =~= Seq::empty());
}

/// Every record of a page has all its fields: the conference and year of
/// the page, and an abstract that is not empty. There is one record per
/// entry, in the order of the entries.
pub proof fn law_records_are_complete(
    conference_name: Seq<char>,
    year: int,
    base: Seq<char>,
    entries: Seq<EntryFactsView>,
)
    ensures
        records_of(conference_name, year, base, entries).len() == entries.len(),
        forall|i: int|
            0 <= i < entries.len() ==> {
                let record = #[trigger] records_of(conference_name, year, base, entries)[i];
                &&& record == record_of(conference_name, year, base, entries[i])
                &&& record.conference_name == conference_name
                &&& record.year == year
                &&& record.abstract_text.len() > 0
                &&& entries[i].link is None ==> record.title == TITLE_NOT_FOUND@ && record.source_url
                    == URL_NOT_FOUND@
                &&& entries[i].authors is None ==> record.authors == AUTHORS_NOT_FOUND@
                &&& entries[i].paragraphs is None ==> record.abstract_text == ABSTRACT_NOT_FOUND@
            },
{
    reveal_strlit("Abstract not found");
}

} // verus!
