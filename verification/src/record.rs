//! The record that a site parser produces for one paper.

use vstd::prelude::*;

verus! {

/// One paper as read from a listing page, not yet stored.
///
/// Every field is always present: what the page does not give is replaced
/// by a placeholder text, never left out.
#[derive(Debug, Clone, PartialEq, Eq)]
pub struct Record {
    pub conference_name: String,
    pub year: i32,
    pub title: String,
    pub source_url: String,
    pub authors: String,
    pub abstract_text: String,
}

/// A `Record` with its texts as character sequences.
pub struct RecordView {
    pub conference_name: Seq<char>,
    pub year: int,
    pub title: Seq<char>,
    pub source_url: Seq<char>,
    pub authors: Seq<char>,
    pub abstract_text: Seq<char>,
}

impl View for Record {
    type V = RecordView;

    open spec fn view(&self) -> RecordView {
        RecordView {
            conference_name: self.conference_name@,
            year: self.year as int,
            title: self.title@,
            source_url: self.source_url@,
            authors: self.authors@,
            abstract_text: self.abstract_text@,
        }
    }
}

impl Record {
    /// A copy of the record.
    pub fn duplicate(&self) -> (r: Record)
        ensures
            r@ == self@,
    {
        Record {
            conference_name: self.conference_name.clone(),
            year: self.year,
            title: self.title.clone(),
            source_url: self.source_url.clone(),
            authors: self.authors.clone(),
            abstract_text: self.abstract_text.clone(),
        }
    }
}

/// The views of `records`, in order.
pub open spec fn views_of(records: Seq<Record>) -> Seq<RecordView> {
    records.map_values(|r: Record| r@)
}

} // verus!
