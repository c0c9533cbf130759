//! A model of what surrounds a crawl: the sites that answer the requests
//! and the store that takes the records.
//!
//! Nothing here runs. The model says how sites and store answer each action
//! of the machine, so that a whole crawl, and what it leaves in the store,
//! can be spoken of: by `run`, which follows the machine step by step, and by
//! `crawl`, which says the same URL by URL.

use vstd::prelude::*;
use crate::crawl::{is_success, ActionView, CrawlView, InputView};
use crate::error::CrawlErrorView;
use crate::record::RecordView;
use crate::registry::parser_for_url;

verus! {

/// What a site answers for one URL.
pub struct Reply {
    /// The status of the response, as code and text, or the message of the
    /// failure to get one.
    pub sent: Result<(int, Seq<char>), Seq<char>>,
    /// What the parser makes of the body, or the message of the failure to
    /// read it.
    pub body: Result<Result<Seq<RecordView>, CrawlErrorView>, Seq<char>>,
}

/// The sites and the store.
pub struct World {
    /// What is answered for each URL.
    pub web: spec_fn(Seq<char>) -> Reply,
    /// The message with which the store refuses to insert a record, for the
    /// records that it refuses.
    pub refuses: spec_fn(RecordView) -> Option<Seq<char>>,
    /// The message with which the store refuses to open a transaction.
    pub begin_failure: Option<Seq<char>>,
    /// The message with which the store refuses to commit.
    pub commit_failure: Option<Seq<char>>,
    /// The records that the store holds.
    pub committed: Set<RecordView>,
    /// The records that the open transaction sees.
    pub staged: Set<RecordView>,
}

/// The result of a whole crawl, what it leaves behind, and how many actions
/// it took.
pub struct Outcome {
    pub result: Result<(int, int), CrawlErrorView>,
    pub world: World,
    pub steps: nat,
}

/// The records of the page at `url`, where a crawl gets to read them: a
/// parser is registered for the URL, the response is a success, the body is
/// read and the parser accepts it.
pub open spec fn page_of(web: spec_fn(Seq<char>) -> Reply, url: Seq<char>) -> Option<Seq<RecordView>> {
    if parser_for_url(url) is Err {
        None
    } else {
        match web(url).sent {
            Err(_) => None,
            Ok((code, _)) => if !is_success(code) {
                None
            } else {
                match web(url).body {
                    Ok(Ok(records)) => Some(records),
                    _ => None,
                }
            },
        }
    }
}

/// The records from index `k` on, as a set.
pub open spec fn set_from(records: Seq<RecordView>, k: int) -> Set<RecordView>
    decreases records.len() - k,
{
    if k < 0 || k >= records.len() {
        Set::empty()
    } else {
        set_from(records, k + 1).insert(records[k])
    }
}

/// The records of the pages that a crawl gets to read, of the URLs from
/// index `from` on, as a set.
pub open spec fn gathered(web: spec_fn(Seq<char>) -> Reply, urls: Seq<Seq<char>>, from: int) -> Set<
    RecordView,
>
    decreases urls.len() - from,
{
    if from < 0 || from >= urls.len() {
        Set::empty()
    } else {
        match page_of(web, urls[from]) {
            Some(records) => set_from(records, 0).union(gathered(web, urls, from + 1)),
            None => gathered(web, urls, from + 1),
        }
    }
}

/// How many records the pages hold that a crawl gets to read, of the URLs
/// from index `from` on.
pub open spec fn found_from(web: spec_fn(Seq<char>) -> Reply, urls: Seq<Seq<char>>, from: int) -> int
    decreases urls.len() - from,
{
    if from < 0 || from >= urls.len() {
        0
    } else {
        match page_of(web, urls[from]) {
            Some(records) => records.len() + found_from(web, urls, from + 1),
            None => found_from(web, urls, from + 1),
        }
    }
}

/// Whether the store refuses none of the records from index `k` on.
pub open spec fn takes(
    refuses: spec_fn(RecordView) -> Option<Seq<char>>,
    records: Seq<RecordView>,
    k: int,
) -> bool
    decreases records.len() - k,
{
    if k < 0 || k >= records.len() {
        true
    } else {
        refuses(records[k]) is None && takes(refuses, records, k + 1)
    }
}

impl World {
    /// Whether the store does what the crawl of the URLs from index `from`
    /// on asks of it: it refuses no record of a page that the crawl gets to
    /// read, and it commits.
    pub open spec fn serves(self, urls: Seq<Seq<char>>, from: int) -> bool
        decreases urls.len() - from,
    {
        if from < 0 || from >= urls.len() {
            self.commit_failure is None
        } else {
            match page_of(self.web, urls[from]) {
                Some(records) => takes(self.refuses, records, 0) && self.serves(urls, from + 1),
                None => self.serves(urls, from + 1),
            }
        }
    }

    /// The world with the open transaction seeing `staged`.
    pub open spec fn staging(self, staged: Set<RecordView>) -> World {
        World { staged, ..self }
    }

    /// The world after the open transaction is dropped.
    pub open spec fn rolled_back(self) -> World {
        World { staged: self.committed, ..self }
    }

    /// The world after the open transaction is committed.
    pub open spec fn settled(self) -> World {
        World { committed: self.staged, ..self }
    }

    /// The records of the page at `url`, where the crawl gets to read them.
    pub open spec fn page(self, url: Seq<char>) -> Option<Seq<RecordView>> {
        page_of(self.web, url)
    }

    /// How the world answers an action of a crawl in the state `s`, and what
    /// it is afterwards.
    ///
    /// An insert creates one row where the transaction does not see an equal
    /// record, and none where it does.
    pub open spec fn answer(self, s: CrawlView, action: ActionView) -> (World, InputView) {
        match action {
            ActionView::Begin => match self.begin_failure {
                Some(m) => (self, InputView::Failed(m)),
                None => (self.rolled_back(), InputView::Done),
            },
            ActionView::Send(url) => match (self.web)(url).sent {
                Ok((code, text)) => (self, InputView::Status(code, text)),
                Err(m) => (self, InputView::Failed(m)),
            },
            ActionView::ReadBody => match (self.web)(s.current_url()).body {
                Ok(outcome) => (self, InputView::Parsed(outcome)),
                Err(m) => (self, InputView::Failed(m)),
            },
            ActionView::Insert(record) => match (self.refuses)(record) {
                Some(m) => (self, InputView::Failed(m)),
                None => if self.staged.contains(record) {
                    (self, InputView::Inserted(0))
                } else {
                    (self.staging(self.staged.insert(record)), InputView::Inserted(1))
                },
            },
            ActionView::Commit => match self.commit_failure {
                Some(m) => (self.rolled_back(), InputView::Failed(m)),
                None => (self.settled(), InputView::Done),
            },
            ActionView::Rollback => (self.rolled_back(), InputView::Done),
            ActionView::Finish(_) => (self, InputView::Done),
        }
    }

    /// Inserts the records from index `k` on, one by one, until the store
    /// refuses one: the number of rows created so far or the store's message,
    /// the world afterwards, and the number of inserts tried.
    pub open spec fn insert_rest(self, records: Seq<RecordView>, k: int, inserted: int) -> (
        Result<int, Seq<char>>,
        World,
        nat,
    )
        decreases records.len() - k,
    {
        if k < 0 || k >= records.len() {
            (Ok(inserted), self, 0)
        } else {
            match (self.refuses)(records[k]) {
                Some(m) => (Err(m), self, 1),
                None => {
                    let rest = if self.staged.contains(records[k]) {
                        self.insert_rest(records, k + 1, inserted)
                    } else {
                        self.staging(self.staged.insert(records[k])).insert_rest(
                            records,
                            k + 1,
                            inserted + 1,
                        )
                    };
                    (rest.0, rest.1, rest.2 + 1)
                },
            }
        }
    }

    /// The crawl of the URLs from index `from` on, inside the open
    /// transaction, with `found` and `inserted` counted so far.
    ///
    /// A URL without a parser costs nothing. A URL whose page is not had, or
    /// not parsed, costs the requests made. The records of a page are
    /// counted, then inserted; a refusal of the store drops the transaction
    /// and ends the crawl. After the last URL the transaction is committed.
    pub open spec fn crawl_from(self, urls: Seq<Seq<char>>, from: int, found: int, inserted: int) -> Outcome
        decreases urls.len() - from,
    {
        if from < 0 || from >= urls.len() {
            match self.commit_failure {
                Some(m) => Outcome {
                    result: Err(CrawlErrorView::Database(m)),
                    world: self.rolled_back(),
                    steps: 1,
                },
                None => Outcome { result: Ok((found, inserted)), world: self.settled(), steps: 1 },
            }
        } else if parser_for_url(urls[from]) is Err {
            self.crawl_from(urls, from + 1, found, inserted)
        } else {
            let reply = (self.web)(urls[from]);
            match reply.sent {
                Err(_) => self.crawl_from(urls, from + 1, found, inserted).after(1),
                Ok((code, _)) => if !is_success(code) {
                    self.crawl_from(urls, from + 1, found, inserted).after(1)
                } else {
                    match reply.body {
                        Ok(Ok(records)) => {
                            let stored = self.insert_rest(records, 0, inserted);
                            match stored.0 {
                                Ok(count) => stored.1.crawl_from(
                                    urls,
                                    from + 1,
                                    found + records.len(),
                                    count,
                                ).after(2 + stored.2),
                                Err(m) => Outcome {
                                    result: Err(CrawlErrorView::Database(m)),
                                    world: stored.1.rolled_back(),
                                    steps: 3 + stored.2,
                                },
                            }
                        },
                        _ => self.crawl_from(urls, from + 1, found, inserted).after(2),
                    }
                },
            }
        }
    }

    /// The crawl of a batch of URLs: the transaction is opened, the URLs are
    /// gone through in order, the transaction is committed.
    pub open spec fn crawl(self, urls: Seq<Seq<char>>) -> Outcome {
        match self.begin_failure {
            Some(m) => Outcome { result: Err(CrawlErrorView::Database(m)), world: self, steps: 1 },
            None => self.rolled_back().crawl_from(urls, 0, 0, 0).after(1),
        }
    }
}

impl Outcome {
    /// The outcome, reached after `n` more actions.
    pub open spec fn after(self, n: nat) -> Outcome {
        Outcome { steps: self.steps + n, ..self }
    }
}

/// What a crawl comes to when the machine, in the state `s` and asking for
/// `action`, is driven against the world for at most `fuel` actions: the
/// result that it finishes with and the world at that moment; `None` where
/// `fuel` actions do not get it to the end.
pub open spec fn run(s: CrawlView, w: World, action: ActionView, fuel: nat) -> Option<
    (Result<(int, int), CrawlErrorView>, World),
>
    decreases fuel,
{
    match action {
        ActionView::Finish(result) => Some((result, w)),
        _ => if fuel == 0 {
            None
        } else {
            let answered = w.answer(s, action);
            let next = s.step(answered.1);
            run(next.0, answered.0, next.1, (fuel - 1) as nat)
        },
    }
}

} // verus!
