//! HTML documents, as the `scraper` crate parses and queries them.
//!
//! The parsers never hold a document. They ask for an outline of it: for
//! the elements that one selector matches, what further selectors match
//! inside them, all as plain text. What the crate finds is named, not
//! described.

use vstd::prelude::*;
use crate::text::{text_view, texts_view};
use scraper::{Html, Selector};

verus! {

/// An element found inside a matched element: its text, the value of the
/// attribute asked for, and the texts of the elements found inside it.
#[derive(Debug, Clone, PartialEq, Eq)]
pub struct Inner {
    pub text: String,
    pub attr: Option<String>,
    pub parts: Vec<String>,
}

/// An `Inner` with its texts as character sequences.
pub struct InnerView {
    pub text: Seq<char>,
    pub attr: Option<Seq<char>>,
    pub parts: Seq<Seq<char>>,
}

impl View for Inner {
    type V = InnerView;

    open spec fn view(&self) -> InnerView {
        InnerView {
            text: self.text@,
            attr: text_view(self.attr),
            parts: texts_view(self.parts@),
        }
    }
}

/// The selectors of the fields, as texts.
pub open spec fn fields_view(fields: Seq<&'static str>) -> Seq<Seq<char>> {
    fields.map_values(|f: &'static str| f@)
}

/// What was found for the fields of one matched element, as views.
pub open spec fn found_view(found: Vec<Vec<Inner>>) -> Seq<Seq<InnerView>> {
    found@.map_values(|f: Vec<Inner>| f@.map_values(|i: Inner| i@))
}

/// The view of what `outline` returns.
pub open spec fn outline_view(r: Option<Vec<Vec<Vec<Inner>>>>) -> Option<Seq<Seq<Seq<InnerView>>>> {
    match r {
        Some(matched) => Some(matched@.map_values(|found: Vec<Vec<Inner>>| found_view(found))),
        None => None,
    }
}

/// What `scraper` finds in the document that it parses from `html`: for
/// each element that the selector `outer` matches, in document order, and
/// for each selector of `fields`, the elements that the selector matches
/// inside that element, in document order, each with its text, its
/// attribute `attr` and the texts of the elements that the selector `nested`
/// matches inside it. `None` where one of the selectors does not compile.
pub uninterp spec fn outlined(
    html: Seq<char>,
    outer: Seq<char>,
    fields: Seq<Seq<char>>,
    nested: Seq<char>,
    attr: Seq<char>,
) -> Option<Seq<Seq<Seq<InnerView>>>>;

/// `scraper::Selector::parse` on every selector, `Html::parse_document`,
/// `Html::select` for `outer`, `ElementRef::select` for the fields and for
/// `nested`, `ElementRef::text` and `ElementRef::attr`: the result is what
/// the crate finds, copied out as text.
#[verifier::external_body]
pub(crate) fn outline(
    html: &str,
    outer: &str,
    fields: &Vec<&'static str>,
    nested: &str,
    attr: &str,
) -> (r: Option<Vec<Vec<Vec<Inner>>>>)
    ensures
        outline_view(r) == outlined(html@, outer@, fields_view(fields@), nested@, attr@),
{
    let compile = |css: &str| Selector::parse(css).ok();
    let (outer, nested) = (compile(outer)?, compile(nested)?);
    let mut inner = Vec::new();
    for css in fields.iter() {
        inner.push(compile(css)?);
    }
    Some(Html::parse_document(html).select(&outer).map(|o| inner.iter().map(|f| o.select(f).map(|m| Inner {
        text: m.text().collect(),
        attr: m.attr(attr).map(String::from),
        parts: m.select(&nested).map(|p| p.text().collect()).collect(),
    }).collect()).collect()).collect())
}

} // verus!
