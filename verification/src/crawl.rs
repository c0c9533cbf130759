//! The crawl of a batch of URLs, as a state machine.
//!
//! The crawl goes through the URLs in order, inside one transaction: choose
//! the parser, fetch the page, parse it, insert its records. The machine
//! takes the decisions and keeps the counts; whoever drives it does the I/O.
//! It hands out an [`Action`], the driver performs it and answers with an
//! [`Event`], until the action is [`Action::Finish`].
//!
//! A URL that cannot be processed is skipped and noted. Only a failure of
//! the store is fatal: the machine then asks for a rollback and finishes with
//! the error, whatever URLs remain.

use vstd::prelude::*;
use vstd::string::*;
use crate::error::{CrawlError, CrawlErrorView};
use crate::record::{views_of, Record, RecordView};
use crate::registry::{get_parser, parser_for_url, ParserKind};
use crate::text::{decimal, decimal_string, text_view, texts_view};
use crate::usenix::{page_records, records_view};
use crate::weburl::text_result_view;

verus! {

/// Where a crawl stands: which answer the machine is waiting for.
#[derive(Debug, Clone, Copy, PartialEq, Eq, Structural)]
pub enum Phase {
    /// Nothing has been asked for yet.
    Created,
    /// The transaction is being opened.
    Beginning,
    /// The request for the current URL has been sent.
    Sending,
    /// The body of the current page is being read.
    Reading,
    /// A record of the current page is being inserted.
    Inserting,
    /// The transaction is being rolled back after the store failed.
    RollingBack,
    /// The transaction is being committed.
    Committing,
    /// The crawl is over.
    Finished,
}

/// What the driver is asked to do next.
#[derive(Debug, PartialEq, Eq)]
pub enum Action {
    /// Open the transaction of the batch.
    Begin,
    /// Send one GET request to this URL and report the status of the response.
    Send(String),
    /// Read the body of the response just received, as text.
    ReadBody,
    /// Insert this record inside the transaction unless the store holds an
    /// equal one, and report how many rows that created.
    Insert(Record),
    /// Commit the transaction.
    Commit,
    /// Roll the transaction back.
    Rollback,
    /// Stop. On success, the numbers of records found and of records newly
    /// inserted; else the error that ended the batch.
    Finish(Result<(usize, usize), CrawlError>),
}

/// What happened when the driver did what it was asked to.
#[derive(Debug, Clone, PartialEq, Eq)]
pub enum Event {
    /// The transaction was opened, committed or rolled back.
    Done,
    /// What was asked for failed; holds the message of the failure.
    Failed(String),
    /// A response arrived; holds its status code and the status as text.
    Status(u16, String),
    /// The body was read; holds its text.
    Body(String),
    /// The insert went through; holds the number of rows it created.
    Inserted(u64),
}

/// An event in which parsing has taken the place of the page's text.
#[derive(Debug, PartialEq, Eq)]
pub enum Input {
    /// The transaction was opened, committed or rolled back.
    Done,
    /// What was asked for failed; holds the message of the failure.
    Failed(String),
    /// A response arrived; holds its status code and the status as text.
    Status(u16, String),
    /// The body was read and parsed; holds what the parser returned.
    Parsed(Result<Vec<Record>, CrawlError>),
    /// The insert went through; holds the number of rows it created.
    Inserted(u64),
}

/// A URL that was passed over, and why.
#[derive(Debug, Clone, PartialEq, Eq)]
pub struct Skipped {
    pub url: String,
    pub error: CrawlError,
}

/// A `Skipped` with its texts as character sequences.
pub struct SkippedView {
    pub url: Seq<char>,
    pub error: CrawlErrorView,
}

/// An `Action` with its texts as character sequences and its counts as integers.
pub enum ActionView {
    Begin,
    Send(Seq<char>),
    ReadBody,
    Insert(RecordView),
    Commit,
    Rollback,
    Finish(Result<(int, int), CrawlErrorView>),
}

/// An `Event` with its texts as character sequences.
pub enum EventView {
    Done,
    Failed(Seq<char>),
    Status(int, Seq<char>),
    Body(Seq<char>),
    Inserted(int),
}

/// An `Input` with its texts as character sequences.
pub enum InputView {
    Done,
    Failed(Seq<char>),
    Status(int, Seq<char>),
    Parsed(Result<Seq<RecordView>, CrawlErrorView>),
    Inserted(int),
}

/// The state of a crawl as contracts see it.
pub struct CrawlView {
    /// The URLs of the batch, in the order in which they are processed.
    pub urls: Seq<Seq<char>>,
    /// The index of the URL in progress; past the last one when none is left.
    pub cursor: int,
    pub phase: Phase,
    /// The records of the current page that are being inserted.
    pub pending: Seq<RecordView>,
    /// The index in `pending` of the record whose insert is awaited.
    pub next_record: int,
    /// How many records the pages have yielded so far.
    pub found: int,
    /// How many inserts have created a row so far.
    pub inserted: int,
    /// The message of the store's failure, once it has failed.
    pub failure: Option<Seq<char>>,
    /// The URLs passed over so far, oldest first.
    pub skipped: Seq<SkippedView>,
}

impl View for Skipped {
    type V = SkippedView;

    open spec fn view(&self) -> SkippedView {
        SkippedView { url: self.url@, error: self.error@ }
    }
}

impl View for Action {
    type V = ActionView;

    open spec fn view(&self) -> ActionView {
        match self {
            Action::Begin => ActionView::Begin,
            Action::Send(url) => ActionView::Send(url@),
            Action::ReadBody => ActionView::ReadBody,
            Action::Insert(record) => ActionView::Insert(record@),
            Action::Commit => ActionView::Commit,
            Action::Rollback => ActionView::Rollback,
            Action::Finish(Ok(counts)) => ActionView::Finish(Ok((counts.0 as int, counts.1 as int))),
            Action::Finish(Err(e)) => ActionView::Finish(Err(e@)),
        }
    }
}

impl View for Event {
    type V = EventView;

    open spec fn view(&self) -> EventView {
        match self {
            Event::Done => EventView::Done,
            Event::Failed(m) => EventView::Failed(m@),
            Event::Status(code, text) => EventView::Status(*code as int, text@),
            Event::Body(html) => EventView::Body(html@),
            Event::Inserted(rows) => EventView::Inserted(*rows as int),
        }
    }
}

impl View for Input {
    type V = InputView;

    open spec fn view(&self) -> InputView {
        match self {
            Input::Done => InputView::Done,
            Input::Failed(m) => InputView::Failed(m@),
            Input::Status(code, text) => InputView::Status(*code as int, text@),
            Input::Parsed(r) => InputView::Parsed(records_view(*r)),
            Input::Inserted(rows) => InputView::Inserted(*rows as int),
        }
    }
}

/// The views of `skipped`, in order.
pub open spec fn skipped_view(skipped: Seq<Skipped>) -> Seq<SkippedView> {
    skipped.map_values(|s: Skipped| s@)
}

/// Whether a status code is a success: 200 to 299.
pub open spec fn is_success(code: int) -> bool {
    200 <= code <= 299
}

/// The message of the error for a response whose status is no success.
pub open spec fn http_failure(url: Seq<char>, status: Seq<char>) -> Seq<char> {
    "HTTP Error for "@ + url + ": "@ + status
}

/// The index of the first URL at or after `from` for which a parser is
/// registered; the number of URLs where there is none.
pub open spec fn seek(urls: Seq<Seq<char>>, from: int) -> int
    decreases urls.len() - from,
{
    if from < 0 || from >= urls.len() {
        urls.len() as int
    } else if parser_for_url(urls[from]) is Ok {
        from
    } else {
        seek(urls, from + 1)
    }
}

/// The notes for the URLs from `from` up to `to`, each passed over for want
/// of a parser.
pub open spec fn passed_over(urls: Seq<Seq<char>>, from: int, to: int) -> Seq<SkippedView>
    decreases to - from,
{
    if from < 0 || to > urls.len() || from >= to {
        Seq::empty()
    } else {
        passed_over(urls, from, to - 1).push(
            SkippedView { url: urls[to - 1], error: parser_for_url(urls[to - 1])->Err_0 },
        )
    }
}

impl CrawlView {
    /// The state of a crawl of `urls` on which nothing has been done.
    pub open spec fn initial(urls: Seq<Seq<char>>) -> CrawlView {
        CrawlView {
            urls,
            cursor: 0,
            phase: Phase::Created,
            pending: Seq::empty(),
            next_record: 0,
            found: 0,
            inserted: 0,
            failure: None,
            skipped: Seq::empty(),
        }
    }

    /// What holds of every state that a crawl goes through.
    pub open spec fn valid(self) -> bool {
        &&& 0 <= self.cursor <= self.urls.len()
        &&& 0 <= self.inserted <= self.found
        &&& (self.phase == Phase::Sending || self.phase == Phase::Reading || self.phase
            == Phase::Inserting) ==> self.cursor < self.urls.len() && parser_for_url(
            self.urls[self.cursor],
        ) is Ok
        &&& self.phase == Phase::Inserting ==> 0 <= self.next_record < self.pending.len()
            && self.inserted + (self.pending.len() - self.next_record) <= self.found
        &&& self.phase == Phase::RollingBack ==> self.failure is Some
        &&& self.failure is Some ==> self.phase == Phase::RollingBack || self.phase
            == Phase::Finished
    }

    /// The URL in progress; the empty text when none is.
    pub open spec fn current_url(self) -> Seq<char> {
        if 0 <= self.cursor < self.urls.len() {
            self.urls[self.cursor]
        } else {
            Seq::empty()
        }
    }

    /// The result of the crawl as it stands: the error of the store if it
    /// has failed, else the two counts.
    pub open spec fn result(self) -> Result<(int, int), CrawlErrorView> {
        match self.failure {
            Some(m) => Err(CrawlErrorView::Database(m)),
            None => Ok((self.found, self.inserted)),
        }
    }

    /// The state with `note` added to the URLs passed over.
    pub open spec fn noting(self, error: CrawlErrorView) -> CrawlView {
        CrawlView {
            skipped: self.skipped.push(SkippedView { url: self.urls[self.cursor], error }),
            ..self
        }
    }

    /// Turns to the first URL at or after `from` that has a parser, noting
    /// those passed over on the way: the request for it is sent; where none
    /// is left, the transaction is committed.
    pub open spec fn turn_to(self, from: int) -> (CrawlView, ActionView) {
        let at = seek(self.urls, from);
        let next = CrawlView {
            cursor: at,
            pending: Seq::empty(),
            next_record: 0,
            skipped: self.skipped + passed_over(self.urls, from, at),
            ..self
        };
        if at < self.urls.len() {
            (CrawlView { phase: Phase::Sending, ..next }, ActionView::Send(self.urls[at]))
        } else {
            (CrawlView { phase: Phase::Committing, ..next }, ActionView::Commit)
        }
    }

    /// Ends the crawl with the result as it stands.
    pub open spec fn finish(self) -> (CrawlView, ActionView) {
        (CrawlView { phase: Phase::Finished, ..self }, ActionView::Finish(self.result()))
    }

    /// The action that the machine is waiting on.
    pub open spec fn awaited(self) -> ActionView {
        match self.phase {
            Phase::Created => ActionView::Begin,
            Phase::Beginning => ActionView::Begin,
            Phase::Sending => ActionView::Send(self.urls[self.cursor]),
            Phase::Reading => ActionView::ReadBody,
            Phase::Inserting => ActionView::Insert(self.pending[self.next_record]),
            Phase::RollingBack => ActionView::Rollback,
            Phase::Committing => ActionView::Commit,
            Phase::Finished => ActionView::Finish(self.result()),
        }
    }

    /// The first step: the transaction is opened.
    pub open spec fn begin(self) -> (CrawlView, ActionView) {
        if self.phase == Phase::Created {
            (CrawlView { phase: Phase::Beginning, ..self }, ActionView::Begin)
        } else {
            (self, self.awaited())
        }
    }

    /// The next state and action, for a state and what happened.
    ///
    /// An input that does not answer the awaited action changes nothing: the
    /// action is asked for again.
    pub open spec fn step(self, input: InputView) -> (CrawlView, ActionView) {
        match (self.phase, input) {
            (Phase::Created, _) => self.begin(),
            (Phase::Beginning, InputView::Done) => self.turn_to(0),
            (Phase::Beginning, InputView::Failed(m)) => CrawlView {
                failure: Some(m),
                ..self
            }.finish(),
            (Phase::Sending, InputView::Status(code, text)) => if is_success(code) {
                (CrawlView { phase: Phase::Reading, ..self }, ActionView::ReadBody)
            } else {
                self.noting(
                    CrawlErrorView::Http(http_failure(self.urls[self.cursor], text)),
                ).turn_to(self.cursor + 1)
            },
            (Phase::Sending, InputView::Failed(m)) => self.noting(CrawlErrorView::Fetch(m)).turn_to(
                self.cursor + 1,
            ),
            (Phase::Reading, InputView::Parsed(Ok(records))) => {
                let counted = CrawlView { found: self.found + records.len(), ..self };
                if records.len() > 0 {
                    (
                        CrawlView {
                            phase: Phase::Inserting,
                            pending: records,
                            next_record: 0,
                            ..counted
                        },
                        ActionView::Insert(records[0]),
                    )
                } else {
                    counted.turn_to(self.cursor + 1)
                }
            },
            (Phase::Reading, InputView::Parsed(Err(e))) => self.noting(e).turn_to(self.cursor + 1),
            (Phase::Reading, InputView::Failed(m)) => self.noting(CrawlErrorView::Fetch(m)).turn_to(
                self.cursor + 1,
            ),
            (Phase::Inserting, InputView::Inserted(rows)) => {
                let counted = CrawlView {
                    inserted: if rows > 0 {
                        self.inserted + 1
                    } else {
                        self.inserted
                    },
                    ..self
                };
                if self.next_record + 1 < self.pending.len() {
                    (
                        CrawlView { next_record: self.next_record + 1, ..counted },
                        ActionView::Insert(self.pending[self.next_record + 1]),
                    )
                } else {
                    counted.turn_to(self.cursor + 1)
                }
            },
            (Phase::Inserting, InputView::Failed(m)) => (
                CrawlView { phase: Phase::RollingBack, failure: Some(m), ..self },
                ActionView::Rollback,
            ),
            (Phase::RollingBack, InputView::Done) => self.finish(),
            (Phase::RollingBack, InputView::Failed(_)) => self.finish(),
            (Phase::Committing, InputView::Done) => self.finish(),
            (Phase::Committing, InputView::Failed(m)) => CrawlView {
                failure: Some(m),
                ..self
            }.finish(),
            _ => (self, self.awaited()),
        }
    }
}

/// Whether `outcome` is what the parser returns for the page `html` at
/// `url` in some year.
pub open spec fn is_parse_of(
    html: Seq<char>,
    url: Seq<char>,
    outcome: Result<Seq<RecordView>, CrawlErrorView>,
) -> bool {
    exists|year: int| #[trigger] page_records(html, url, year) == outcome
}

/// Whether `input` is `event` as the machine in the state `s` takes it:
/// the text of a page that it is waiting for is replaced by what the parser
/// makes of it at the URL in progress. A page that it is not waiting for is
/// not looked at.
pub open spec fn resolves(s: CrawlView, event: EventView, input: InputView) -> bool {
    match event {
        EventView::Done => input == InputView::Done,
        EventView::Failed(m) => input == InputView::Failed(m),
        EventView::Status(code, text) => input == InputView::Status(code, text),
        EventView::Body(html) => input matches InputView::Parsed(outcome) && (s.phase
            == Phase::Reading ==> is_parse_of(html, s.current_url(), outcome)),
        EventView::Inserted(rows) => input == InputView::Inserted(rows),
    }
}

/// The line that reports a crawl that went through.
pub open spec fn summary(found: int, inserted: int) -> Seq<char> {
    "Crawl complete. Total papers found: "@ + decimal(found as nat)
        + ". Total new papers inserted: "@ + decimal(inserted as nat) + "."@
}

/// What the caller of a crawl is told: the summary of the counts, or the
/// message of the error.
pub open spec fn report(outcome: Result<(int, int), CrawlErrorView>) -> Result<Seq<char>, Seq<char>> {
    match outcome {
        Ok(counts) => Ok(summary(counts.0, counts.1)),
        Err(e) => Err(e.message()),
    }
}

/// Renders the outcome of a crawl for its caller: one line with the two
/// counts where it went through, else the message of the error.
pub fn summarize(outcome: &Result<(usize, usize), CrawlError>) -> (r: Result<String, String>)
    ensures
        text_result_view(r) == report(
            match outcome {
                Ok(counts) => Ok((counts.0 as int, counts.1 as int)),
                Err(e) => Err(e@),
            },
        ),
{
    match outcome {
        Ok(counts) => {
            let mut line = "Crawl complete. Total papers found: ".to_owned();
            line.append(decimal_string(counts.0).as_str());
            line.append(". Total new papers inserted: ");
            line.append(decimal_string(counts.1).as_str());
            line.append(".");
            Ok(line)
        },
        Err(e) => Err(e.message()),
    }
}

/// The crawl of one batch of URLs.
pub struct Crawl {
    urls: Vec<String>,
    cursor: usize,
    parser: ParserKind,
    phase: Phase,
    pending: Vec<Record>,
    next_record: usize,
    found: usize,
    inserted: usize,
    failure: Option<String>,
    skipped: Vec<Skipped>,
}

impl View for Crawl {
    type V = CrawlView;

    closed spec fn view(&self) -> CrawlView {
        CrawlView {
            urls: texts_view(self.urls@),
            cursor: self.cursor as int,
            phase: self.phase,
            pending: views_of(self.pending@),
            next_record: self.next_record as int,
            found: self.found as int,
            inserted: self.inserted as int,
            failure: text_view(self.failure),
            skipped: skipped_view(self.skipped@),
        }
    }
}

proof fn lemma_passed_over_one_more(urls: Seq<Seq<char>>, from: int, to: int)
    requires
        0 <= from <= to < urls.len(),
    ensures
        passed_over(urls, from, to + 1) == passed_over(urls, from, to).push(
            SkippedView { url: urls[to], error: parser_for_url(urls[to])->Err_0 },
        ),
{
}

proof fn lemma_seek_passes(urls: Seq<Seq<char>>, from: int, to: int)
    requires
        0 <= from <= to <= urls.len(),
        forall|k: int| from <= k < to ==> parser_for_url(#[trigger] urls[k]) is Err,
    ensures
        seek(urls, from) == seek(urls, to),
    decreases to - from,
{
    if from < to {
        lemma_seek_passes(urls, from + 1, to);
    }
}

impl Crawl {
    /// Whether the machine's state is one that a crawl goes through. It
    /// holds of a new crawl and every step keeps it.
    pub closed spec fn wf(&self) -> bool {
        &&& self@.valid()
        &&& self.cursor <= self.urls@.len()
        &&& self.phase == Phase::Inserting ==> self.next_record < self.pending@.len()
        &&& (self.phase == Phase::Sending || self.phase == Phase::Reading || self.phase
            == Phase::Inserting) ==> self.cursor < self.urls@.len() && parser_for_url(
            self.urls@[self.cursor as int]@,
        ) == Ok::<ParserKind, CrawlErrorView>(self.parser)
    }

    /// A crawl of `urls`, in order, on which nothing has been done yet.
    pub fn new(urls: Vec<String>) -> (crawl: Crawl)
        ensures
            crawl.wf(),
            crawl@ == CrawlView::initial(texts_view(urls@)),
    {
        let crawl = Crawl {
            urls,
            cursor: 0,
            parser: ParserKind::Usenix,
            phase: Phase::Created,
            pending: Vec::new(),
            next_record: 0,
            found: 0,
            inserted: 0,
            failure: None,
            skipped: Vec::new(),
        };
        assert(crawl@.pending =~= Seq::<RecordView>::empty());
        assert(crawl@.skipped =~= Seq::<SkippedView>::empty());
        crawl
    }

    /// Where the crawl stands.
    pub fn phase(&self) -> (r: Phase)
        ensures
            r == self@.phase,
    {
        self.phase
    }

    /// How many records the pages have yielded so far.
    pub fn found(&self) -> (r: usize)
        ensures
            r == self@.found,
    {
        self.found
    }

    /// How many inserts have created a row so far.
    pub fn inserted(&self) -> (r: usize)
        ensures
            r == self@.inserted,
    {
        self.inserted
    }

    /// The URLs passed over so far, oldest first, each with its reason.
    pub fn skipped(&self) -> (r: &Vec<Skipped>)
        ensures
            skipped_view(r@) == self@.skipped,
    {
        &self.skipped
    }

    /// The result of the crawl as it stands.
    fn result(&self) -> (r: Result<(usize, usize), CrawlError>)
        ensures
            Action::Finish(r)@ == ActionView::Finish(self@.result()),
    {
        match &self.failure {
            Some(m) => Err(CrawlError::Database(m.clone())),
            None => Ok((self.found, self.inserted)),
        }
    }

    /// The action that the machine is waiting on.
    fn awaited(&self) -> (r: Action)
        requires
            self.wf(),
        ensures
            r@ == self@.awaited(),
    {
        match self.phase {
            Phase::Created => Action::Begin,
            Phase::Beginning => Action::Begin,
            Phase::Sending => Action::Send(self.urls[self.cursor].clone()),
            Phase::Reading => Action::ReadBody,
            Phase::Inserting => Action::Insert(self.pending[self.next_record].duplicate()),
            Phase::RollingBack => Action::Rollback,
            Phase::Committing => Action::Commit,
            Phase::Finished => Action::Finish(self.result()),
        }
    }

    /// The index of the URL after the current one.
    fn following(&self) -> (next: usize)
        requires
            self.cursor < self.urls@.len(),
        ensures
            next == self.cursor + 1,
    {
        let total = self.urls.len();
        self.cursor + 1
    }

    /// Notes that the current URL is passed over because of `error`.
    fn note(&mut self, error: CrawlError)
        requires
            old(self).cursor < old(self).urls@.len(),
        ensures
            final(self)@ == old(self)@.noting(error@),
            final(self).parser == old(self).parser,
            final(self).urls == old(self).urls,
            final(self).cursor == old(self).cursor,
    {
        let url = self.urls[self.cursor].clone();
        self.skipped.push(Skipped { url, error });
        assert(skipped_view(self.skipped@) =~= skipped_view(old(self).skipped@).push(
            SkippedView { url: old(self)@.urls[old(self)@.cursor], error: error@ },
        ));
    }

    /// Turns to the first URL at or after `from` that has a parser.
    fn turn_to(&mut self, from: usize) -> (action: Action)
        requires
            from <= old(self).urls@.len(),
            old(self)@.inserted <= old(self)@.found,
            old(self)@.failure is None,
        ensures
            final(self).wf(),
            (final(self)@, action@) == old(self)@.turn_to(from as int),
    {
        let ghost start = self@;
        let ghost urls = self@.urls;
        let mut i: usize = from;
        self.pending = Vec::new();
        self.next_record = 0;
        assert(views_of(self.pending@) =~= Seq::<RecordView>::empty());
        while i < self.urls.len()
            invariant
                from <= i <= self.urls@.len(),
                urls == texts_view(self.urls@),
                forall|k: int| from <= k < i ==> parser_for_url(#[trigger] urls[k]) is Err,
                self@ == (CrawlView {
                    pending: Seq::empty(),
                    next_record: 0,
                    skipped: start.skipped + passed_over(urls, from as int, i as int),
                    ..start
                }),
                start.urls == urls,
                start == old(self)@,
                start.inserted <= start.found,
                start.failure is None,
                0 <= start.inserted,
            decreases self.urls@.len() - i,
        {
            assert(urls[i as int] == self.urls@[i as int]@);
            match get_parser(self.urls[i].as_str()) {
                Ok(parser) => {
                    proof {
                        lemma_seek_passes(urls, from as int, i as int);
                        assert(seek(urls, i as int) == i);
                    }
                    self.parser = parser;
                    self.cursor = i;
                    self.phase = Phase::Sending;
                    return Action::Send(self.urls[i].clone());
                },
                Err(error) => {
                    proof {
                        lemma_passed_over_one_more(urls, from as int, i as int);
                        assert(parser_for_url(urls[i as int])->Err_0 == error@);
                    }
                    let ghost before = self.skipped@;
                    let url = self.urls[i].clone();
                    self.skipped.push(Skipped { url, error });
                    assert(skipped_view(self.skipped@) =~= skipped_view(before).push(
                        SkippedView { url: urls[i as int], error: error@ },
                    ));
                    assert(skipped_view(self.skipped@) =~= start.skipped + passed_over(
                        urls,
                        from as int,
                        i as int + 1,
                    ));
                },
            }
            i = i + 1;
        }
        proof {
            lemma_seek_passes(urls, from as int, i as int);
            assert(seek(urls, i as int) == urls.len());
        }
        self.cursor = self.urls.len();
        self.phase = Phase::Committing;
        Action::Commit
    }

    /// Ends the crawl with the result as it stands.
    fn finish(&mut self) -> (action: Action)
        requires
            0 <= old(self)@.inserted <= old(self)@.found,
            old(self)@.cursor <= old(self)@.urls.len(),
        ensures
            final(self).wf(),
            (final(self)@, action@) == old(self)@.finish(),
    {
        self.phase = Phase::Finished;
        Action::Finish(self.result())
    }

    /// Starts the crawl: asks for the transaction to be opened.
    ///
    /// On a crawl that has been started already, nothing changes and the
    /// awaited action is given again.
    pub fn begin(&mut self) -> (action: Action)
        requires
            old(self).wf(),
        ensures
            final(self).wf(),
            (final(self)@, action@) == old(self)@.begin(),
    {
        match self.phase {
            Phase::Created => {
                self.phase = Phase::Beginning;
                Action::Begin
            },
            _ => self.awaited(),
        }
    }

    /// Takes what happened, with the page already parsed, and gives the
    /// next action.
    ///
    /// The counts are kept in machine integers: the records of a page must
    /// not take the number of records found past `usize::MAX`.
    pub fn apply(&mut self, input: Input) -> (action: Action)
        requires
            old(self).wf(),
            old(self)@.phase == Phase::Reading ==> (input@ matches InputView::Parsed(Ok(records))
                ==> old(self)@.found + records.len() <= usize::MAX),
        ensures
            final(self).wf(),
            (final(self)@, action@) == old(self)@.step(input@),
    {
        match self.phase {
            Phase::Created => self.begin(),
            Phase::Beginning => match input {
                Input::Done => self.turn_to(0),
                Input::Failed(m) => {
                    self.failure = Some(m);
                    self.finish()
                },
                _ => self.awaited(),
            },
            Phase::Sending => match input {
                Input::Status(code, text) => {
                    if 200 <= code && code <= 299 {
                        self.phase = Phase::Reading;
                        Action::ReadBody
                    } else {
                        let mut message = "HTTP Error for ".to_owned();
                        message.append(self.urls[self.cursor].as_str());
                        message.append(": ");
                        message.append(text.as_str());
                        let next = self.following();
                        self.note(CrawlError::Http(message));
                        self.turn_to(next)
                    }
                },
                Input::Failed(m) => {
                    let next = self.following();
                    self.note(CrawlError::Fetch(m));
                    self.turn_to(next)
                },
                _ => self.awaited(),
            },
            Phase::Reading => match input {
                Input::Parsed(Ok(records)) => {
                    self.found = self.found + records.len();
                    if records.len() > 0 {
                        let first = records[0].duplicate();
                        self.phase = Phase::Inserting;
                        self.pending = records;
                        self.next_record = 0;
                        Action::Insert(first)
                    } else {
                        assert(views_of(records@) =~= Seq::<RecordView>::empty());
                        let next = self.following();
                        self.turn_to(next)
                    }
                },
                Input::Parsed(Err(e)) => {
                    let next = self.following();
                    self.note(e);
                    self.turn_to(next)
                },
                Input::Failed(m) => {
                    let next = self.following();
                    self.note(CrawlError::Fetch(m));
                    self.turn_to(next)
                },
                _ => self.awaited(),
            },
            Phase::Inserting => match input {
                Input::Inserted(rows) => {
                    if rows > 0 {
                        self.inserted = self.inserted + 1;
                    }
                    let count = self.pending.len();
                    if self.next_record + 1 < count {
                        self.next_record = self.next_record + 1;
                        Action::Insert(self.pending[self.next_record].duplicate())
                    } else {
                        let next = self.following();
                        self.turn_to(next)
                    }
                },
                Input::Failed(m) => {
                    self.phase = Phase::RollingBack;
                    self.failure = Some(m);
                    Action::Rollback
                },
                _ => self.awaited(),
            },
            Phase::RollingBack => match input {
                Input::Done => self.finish(),
                Input::Failed(_) => self.finish(),
                _ => self.awaited(),
            },
            Phase::Committing => match input {
                Input::Done => self.finish(),
                Input::Failed(m) => {
                    self.failure = Some(m);
                    self.finish()
                },
                _ => self.awaited(),
            },
            Phase::Finished => self.awaited(),
        }
    }

    /// Takes what happened and gives the next action. A page's text is
    /// parsed here, by the parser chosen for its URL.
    ///
    /// The result is `None`, and nothing has changed, only where the records
    /// of the page would take the number of records found past `usize::MAX`.
    pub fn step(&mut self, event: Event) -> (r: Option<Action>)
        requires
            old(self).wf(),
        ensures
            final(self).wf(),
            match r {
                Some(action) => exists|input: InputView| #[trigger]
                    resolves(old(self)@, event@, input) && old(self)@.step(input) == (
                        final(self)@,
                        action@,
                    ),
                None => final(self)@ == old(self)@ && old(self)@.phase == Phase::Reading
                    && event@ is Body && exists|records: Seq<RecordView>| #[trigger]
                    is_parse_of(
                        event@->Body_0,
                        old(self)@.current_url(),
                        Ok::<Seq<RecordView>, CrawlErrorView>(records),
                    ) && old(self)@.found + records.len() > usize::MAX,
            },
    {
        let ghost url = self@.current_url();
        let ghost before = self@;
        let ghost happened = event@;
        let input = match event {
            Event::Done => Input::Done,
            Event::Failed(m) => Input::Failed(m),
            Event::Status(code, text) => Input::Status(code, text),
            Event::Inserted(rows) => Input::Inserted(rows),
            Event::Body(html) => {
                match self.phase {
                    Phase::Reading => {
                        let outcome = self.parser.parse_and_extract(
                            html.as_str(),
                            self.urls[self.cursor].as_str(),
                        );
                        match &outcome {
                            Ok(records) => {
                                if records.len() > usize::MAX - self.found {
                                    assert(happened->Body_0 == html@);
                                    assert(is_parse_of(html@, url, Ok(views_of(records@))));
                                    return None;
                                }
                            },
                            Err(_) => {},
                        }
                        Input::Parsed(outcome)
                    },
                    _ => {
                        let action = match self.phase {
                            Phase::Created => self.begin(),
                            _ => self.awaited(),
                        };
                        proof {
                            let input = InputView::Parsed(Ok(Seq::empty()));
                            assert(resolves(before, happened, input));
                            assert(before.step(input) == (self@, action@));
                        }
                        return Some(action);
                    },
                }
            },
        };
        let ghost given = input@;
        assert(resolves(before, happened, given));
        let action = self.apply(input);
        assert(before.step(given) == (self@, action@));
        Some(action)
    }
}

} // verus!
