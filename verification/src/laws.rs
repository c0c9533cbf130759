//! What holds of every crawl, proved of the machine and of the model of
//! what surrounds it.

use vstd::prelude::*;
use crate::crawl::{
    http_failure, is_success, passed_over, seek, ActionView, CrawlView, InputView, Phase, SkippedView,
};
use crate::error::CrawlErrorView;
use crate::model::{found_from, gathered, page_of, run, set_from, takes, World};
use crate::record::RecordView;
use crate::registry::parser_for_url;

verus! {

/// Driving the machine through the inserts of a page comes to what
/// `insert_rest` says: either the crawl turns to the next URL with the rows
/// counted, or the store's refusal rolls back and ends it.
proof fn lemma_inserting(s: CrawlView, w: World, fuel: nat)
    requires
        s.phase == Phase::Inserting,
        0 <= s.next_record < s.pending.len(),
    ensures
        ({
            let stored = w.insert_rest(s.pending, s.next_record, s.inserted);
            let start = ActionView::Insert(s.pending[s.next_record]);
            match stored.0 {
                Ok(count) => {
                    let turned = (CrawlView { inserted: count, ..s }).turn_to(s.cursor + 1);
                    fuel >= stored.2 ==> run(s, w, start, fuel) == run(
                        turned.0,
                        stored.1,
                        turned.1,
                        (fuel - stored.2) as nat,
                    )
                },
                Err(m) => fuel >= stored.2 + 1 ==> run(s, w, start, fuel) == Some(
                    (Err::<(int, int), CrawlErrorView>(CrawlErrorView::Database(m)), stored.1.rolled_back()),
                ),
            }
        }),
    decreases s.pending.len() - s.next_record,
{
    let k = s.next_record;
    let record = s.pending[k];
    let start = ActionView::Insert(record);
    let stored = w.insert_rest(s.pending, k, s.inserted);
    if fuel >= 1 {
        let answered = w.answer(s, start);
        let next = s.step(answered.1);
        assert(run(s, w, start, fuel) == run(next.0, answered.0, next.1, (fuel - 1) as nat));
        match (w.refuses)(record) {
            Some(m) => {
                if fuel >= 2 {
                    reveal_with_fuel(run, 3);
                    assert(next.1 == ActionView::Rollback);
                    let rolled = answered.0.answer(next.0, next.1);
                    let last = next.0.step(rolled.1);
                    assert(last.1 == ActionView::Finish(
                        Err::<(int, int), CrawlErrorView>(CrawlErrorView::Database(m)),
                    ));
                }
            },
            None => {
                if k + 1 < s.pending.len() {
                    lemma_inserting(next.0, answered.0, (fuel - 1) as nat);
                    let rest = answered.0.insert_rest(s.pending, k + 1, next.0.inserted);
                    assert(stored.0 == rest.0 && stored.1 == rest.1 && stored.2 == rest.2 + 1);
                    match rest.0 {
                        Ok(count) => {
                            assert((CrawlView { inserted: count, ..next.0 }).turn_to(s.cursor + 1)
                                == (CrawlView { inserted: count, ..s }).turn_to(s.cursor + 1));
                        },
                        Err(_) => {},
                    }
                } else {
                    let rest = answered.0.insert_rest(s.pending, k + 1, next.0.inserted);
                    assert(rest.2 == 0);
                    assert((CrawlView { inserted: next.0.inserted, ..s }).turn_to(s.cursor + 1)
                        == next);
                }
            },
        }
    }
}

/// The URLs that the machine passes over for want of a parser cost the
/// crawl nothing.
proof fn lemma_crawl_seeks(w: World, urls: Seq<Seq<char>>, from: int, found: int, inserted: int)
    requires
        0 <= from <= urls.len(),
    ensures
        w.crawl_from(urls, from, found, inserted) == w.crawl_from(
            urls,
            seek(urls, from),
            found,
            inserted,
        ),
    decreases urls.len() - from,
{
    if from < urls.len() && parser_for_url(urls[from]) is Err {
        lemma_crawl_seeks(w, urls, from + 1, found, inserted);
    }
}

/// Driving the machine from the moment it turns to the URL at `from` comes
/// to what `crawl_from` says.
proof fn lemma_turning(s: CrawlView, from: int, w: World, fuel: nat)
    requires
        0 <= from <= s.urls.len(),
        s.failure is None,
    ensures
        ({
            let o = w.crawl_from(s.urls, from, s.found, s.inserted);
            let turned = s.turn_to(from);
            fuel >= o.steps ==> run(turned.0, w, turned.1, fuel) == Some((o.result, o.world))
        }),
    decreases s.urls.len() - from,
{
    let urls = s.urls;
    let at = seek(urls, from);
    lemma_crawl_seeks(w, urls, from, s.found, s.inserted);
    lemma_seek_bounds(urls, from);
    let o = w.crawl_from(urls, at, s.found, s.inserted);
    let turned = s.turn_to(from);
    let t = turned.0;
    if fuel >= o.steps {
        if at >= urls.len() {
            reveal_with_fuel(run, 2);
            let answered = w.answer(t, turned.1);
            let next = t.step(answered.1);
            assert(next.1 == ActionView::Finish(o.result));
        } else {
            let url = urls[at];
            let reply = (w.web)(url);
            let answered = w.answer(t, turned.1);
            let next = t.step(answered.1);
            assert(answered.0 == w);
            assert(run(t, w, turned.1, fuel) == run(next.0, w, next.1, (fuel - 1) as nat));
            match reply.sent {
                Err(m) => {
                    lemma_turning(t.noting(CrawlErrorView::Fetch(m)), at + 1, w, (fuel - 1) as nat);
                },
                Ok((code, text)) => {
                    if !is_success(code) {
                        lemma_turning(
                            t.noting(CrawlErrorView::Http(http_failure(url, text))),
                            at + 1,
                            w,
                            (fuel - 1) as nat,
                        );
                    } else {
                        let reading = next.0;
                        assert(reading.current_url() == url);
                        let read = w.answer(reading, next.1);
                        let then = reading.step(read.1);
                        assert(read.0 == w);
                        assert(run(reading, w, next.1, (fuel - 1) as nat) == run(
                            then.0,
                            w,
                            then.1,
                            (fuel - 2) as nat,
                        ));
                        match reply.body {
                            Err(m) => {
                                lemma_turning(
                                    reading.noting(CrawlErrorView::Fetch(m)),
                                    at + 1,
                                    w,
                                    (fuel - 2) as nat,
                                );
                            },
                            Ok(Err(e)) => {
                                lemma_turning(reading.noting(e), at + 1, w, (fuel - 2) as nat);
                            },
                            Ok(Ok(records)) => {
                                let counted = CrawlView {
                                    found: reading.found + records.len(),
                                    ..reading
                                };
                                let stored = w.insert_rest(records, 0, s.inserted);
                                if records.len() == 0 {
                                    lemma_turning(counted, at + 1, w, (fuel - 2) as nat);
                                } else {
                                    let inserting = then.0;
                                    lemma_inserting(inserting, w, (fuel - 2) as nat);
                                    match stored.0 {
                                        Ok(count) => {
                                            lemma_turning(
                                                CrawlView { inserted: count, ..inserting },
                                                at + 1,
                                                stored.1,
                                                (fuel - 2 - stored.2) as nat,
                                            );
                                        },
                                        Err(_) => {},
                                    }
                                }
                            },
                        }
                    }
                },
            }
        }
    }
}

/// A crawl driven step by step comes to what `crawl` says of it URL by URL:
/// the same result, and the same contents of the store.
///
/// For every batch and every world, once the machine is given as many
/// actions as the crawl takes.
pub proof fn law_run_is_crawl(urls: Seq<Seq<char>>, w: World, fuel: nat)
    requires
        fuel >= w.crawl(urls).steps,
    ensures
        ({
            let begun = CrawlView::initial(urls).begin();
            run(begun.0, w, begun.1, fuel) == Some((w.crawl(urls).result, w.crawl(urls).world))
        }),
{
    let begun = CrawlView::initial(urls).begin();
    let answered = w.answer(begun.0, begun.1);
    let next = begun.0.step(answered.1);
    assert(run(begun.0, w, begun.1, fuel) == run(next.0, answered.0, next.1, (fuel - 1) as nat));
    match w.begin_failure {
        Some(m) => {
            reveal_with_fuel(run, 2);
        },
        None => {
            lemma_turning(begun.0, 0, w.rolled_back(), (fuel - 1) as nat);
        },
    }
}

/// Inserting records goes through exactly where the store refuses none of
/// them. It then adds the missing ones to what the transaction sees and
/// counts them; where none is missing, nothing changes.
proof fn lemma_insert_rest_taken(w: World, records: Seq<RecordView>, k: int, inserted: int)
    requires
        0 <= k <= records.len(),
    ensures
        ({
            let stored = w.insert_rest(records, k, inserted);
            &&& stored.0 is Ok <==> takes(w.refuses, records, k)
            &&& stored.0 is Ok ==> {
                &&& inserted <= stored.0->Ok_0 <= inserted + (records.len() - k)
                &&& stored.1 == w.staging(stored.1.staged)
                &&& stored.1.staged == w.staged.union(set_from(records, k))
                &&& set_from(records, k).subset_of(w.staged) ==> stored.0->Ok_0 == inserted
                    && stored.1 == w
            }
        }),
    decreases records.len() - k,
{
    if k < records.len() {
        let record = records[k];
        if (w.refuses)(record) is None {
            if w.staged.contains(record) {
                lemma_insert_rest_taken(w, records, k + 1, inserted);
                assert(w.staged.union(set_from(records, k + 1)) =~= w.staged.union(
                    set_from(records, k),
                ));
                if set_from(records, k).subset_of(w.staged) {
                    assert(set_from(records, k + 1).subset_of(w.staged));
                }
            } else {
                let grown = w.staging(w.staged.insert(record));
                lemma_insert_rest_taken(grown, records, k + 1, inserted + 1);
                let rest = grown.insert_rest(records, k + 1, inserted + 1);
                assert(grown.staged.union(set_from(records, k + 1)) =~= w.staged.union(
                    set_from(records, k),
                ));
                assert(grown.staging(rest.1.staged) == w.staging(rest.1.staged));
                assert(set_from(records, k).contains(record));
            }
        }
    } else {
        assert(w.staged.union(set_from(records, k)) =~= w.staged);
        assert(w.staging(w.staged) == w);
    }
}

/// What the store is asked does not depend on what it holds.
proof fn lemma_serves_whatever_is_stored(w: World, v: World, urls: Seq<Seq<char>>, from: int)
    requires
        v.web == w.web,
        v.refuses == w.refuses,
        v.commit_failure == w.commit_failure,
    ensures
        v.serves(urls, from) == w.serves(urls, from),
    decreases urls.len() - from,
{
    if 0 <= from < urls.len() {
        lemma_serves_whatever_is_stored(w, v, urls, from + 1);
    }
}

/// A crawl goes through exactly where the store does what is asked of it.
/// It then finds what the pages hold, commits what the transaction saw
/// together with the records of the pages, and inserts nothing where the
/// transaction saw them all.
proof fn lemma_crawl_from_served(
    w: World,
    urls: Seq<Seq<char>>,
    from: int,
    found: int,
    inserted: int,
)
    requires
        0 <= from <= urls.len(),
    ensures
        ({
            let o = w.crawl_from(urls, from, found, inserted);
            &&& o.result is Ok <==> w.serves(urls, from)
            &&& o.result is Ok ==> {
                &&& o.result->Ok_0.0 == found + found_from(w.web, urls, from)
                &&& inserted <= o.result->Ok_0.1
                &&& o.world == w.staging(o.world.staged).settled()
                &&& o.world.committed == w.staged.union(gathered(w.web, urls, from))
                &&& gathered(w.web, urls, from).subset_of(w.staged) ==> o.result->Ok_0.1
                    == inserted
            }
        }),
    decreases urls.len() - from,
{
    if from >= urls.len() {
        assert(w.staged.union(gathered(w.web, urls, from)) =~= w.staged);
        assert(w.staging(w.staged) == w);
    } else {
        match page_of(w.web, urls[from]) {
            None => {
                lemma_crawl_from_served(w, urls, from + 1, found, inserted);
            },
            Some(records) => {
                lemma_insert_rest_taken(w, records, 0, inserted);
                let stored = w.insert_rest(records, 0, inserted);
                if stored.0 is Ok {
                    let count = stored.0->Ok_0;
                    lemma_serves_whatever_is_stored(w, stored.1, urls, from + 1);
                    lemma_crawl_from_served(
                        stored.1,
                        urls,
                        from + 1,
                        found + records.len(),
                        count,
                    );
                    let o = stored.1.crawl_from(urls, from + 1, found + records.len(), count);
                    assert(stored.1.staged.union(gathered(w.web, urls, from + 1))
                        =~= w.staged.union(gathered(w.web, urls, from)));
                    assert(stored.1.staging(o.world.staged) == w.staging(o.world.staged));
                    if gathered(w.web, urls, from).subset_of(w.staged) {
                        assert(set_from(records, 0).subset_of(w.staged));
                        assert(gathered(w.web, urls, from + 1).subset_of(stored.1.staged));
                    }
                }
            },
        }
    }
}

/// Crawling the same batch a second time finds as many records as the
/// first time and inserts none, and leaves the store as the first crawl
/// left it.
///
/// For every batch, every store, and every answer of the sites, as long as
/// the first crawl goes through and the sites answer the same both times.
pub proof fn law_second_crawl_inserts_nothing(urls: Seq<Seq<char>>, w: World)
    requires
        w.crawl(urls).result is Ok,
    ensures
        ({
            let first = w.crawl(urls);
            let second = first.world.crawl(urls);
            &&& second.result is Ok
            &&& second.result->Ok_0.0 == first.result->Ok_0.0
            &&& second.result->Ok_0.1 == 0
            &&& second.world.committed == first.world.committed
        }),
{
    let opened = w.rolled_back();
    lemma_crawl_from_served(opened, urls, 0, 0, 0);
    let first = w.crawl(urls);
    let reopened = first.world.rolled_back();
    lemma_serves_whatever_is_stored(opened, reopened, urls, 0);
    assert(gathered(w.web, urls, 0).subset_of(reopened.staged));
    lemma_crawl_from_served(reopened, urls, 0, 0, 0);
    assert(reopened.staged.union(gathered(w.web, urls, 0)) =~= reopened.staged);
}

/// A crawl goes through, with the number of records that the pages hold,
/// exactly where the transaction opens and the store does what is asked of
/// it; the records it inserts are never more than those it found.
pub proof fn law_crawl_goes_through(urls: Seq<Seq<char>>, w: World)
    ensures
        w.crawl(urls).result is Ok <==> w.begin_failure is None && w.serves(urls, 0),
        w.crawl(urls).result matches Ok(counts) ==> counts.0 == found_from(w.web, urls, 0) && 0
            <= counts.1 <= counts.0 && w.crawl(urls).world.committed == w.committed.union(
            gathered(w.web, urls, 0),
        ),
{
    if w.begin_failure is None {
        let opened = w.rolled_back();
        lemma_serves_whatever_is_stored(w, opened, urls, 0);
        lemma_crawl_from_served(opened, urls, 0, 0, 0);
        lemma_inserted_within_found(opened, urls, 0, 0, 0);
    }
}

proof fn lemma_inserted_within_found(
    w: World,
    urls: Seq<Seq<char>>,
    from: int,
    found: int,
    inserted: int,
)
    requires
        0 <= from <= urls.len(),
        inserted <= found,
    ensures
        w.crawl_from(urls, from, found, inserted).result matches Ok(counts) ==> counts.1
            <= counts.0,
    decreases urls.len() - from,
{
    if from < urls.len() {
        match page_of(w.web, urls[from]) {
            None => {
                lemma_inserted_within_found(w, urls, from + 1, found, inserted);
            },
            Some(records) => {
                lemma_insert_rest_taken(w, records, 0, inserted);
                let stored = w.insert_rest(records, 0, inserted);
                if stored.0 is Ok {
                    lemma_inserted_within_found(
                        stored.1,
                        urls,
                        from + 1,
                        found + records.len(),
                        stored.0->Ok_0,
                    );
                }
            },
        }
    }
}

/// A crawl that ends with an error has committed nothing: the store holds
/// what it held before. The error is the store's.
pub proof fn law_failed_crawl_commits_nothing(urls: Seq<Seq<char>>, w: World)
    ensures
        w.crawl(urls).result is Err ==> w.crawl(urls).world.committed == w.committed
            && w.crawl(urls).result->Err_0 is Database,
{
    if w.begin_failure is None {
        lemma_failure_keeps_committed(w.rolled_back(), urls, 0, 0, 0);
    }
}

proof fn lemma_insert_rest_keeps_committed(w: World, records: Seq<RecordView>, k: int, inserted: int)
    ensures
        w.insert_rest(records, k, inserted).1.committed == w.committed,
        w.insert_rest(records, k, inserted).1.commit_failure == w.commit_failure,
    decreases records.len() - k,
{
    if 0 <= k < records.len() {
        if (w.refuses)(records[k]) is None {
            if w.staged.contains(records[k]) {
                lemma_insert_rest_keeps_committed(w, records, k + 1, inserted);
            } else {
                lemma_insert_rest_keeps_committed(
                    w.staging(w.staged.insert(records[k])),
                    records,
                    k + 1,
                    inserted + 1,
                );
            }
        }
    }
}

proof fn lemma_failure_keeps_committed(
    w: World,
    urls: Seq<Seq<char>>,
    from: int,
    found: int,
    inserted: int,
)
    ensures
        ({
            let o = w.crawl_from(urls, from, found, inserted);
            o.result is Err ==> o.world.committed == w.committed && o.result->Err_0 is Database
        }),
    decreases urls.len() - from,
{
    if 0 <= from < urls.len() {
        match page_of(w.web, urls[from]) {
            None => {
                lemma_failure_keeps_committed(w, urls, from + 1, found, inserted);
            },
            Some(records) => {
                let stored = w.insert_rest(records, 0, inserted);
                lemma_insert_rest_keeps_committed(w, records, 0, inserted);
                match stored.0 {
                    Ok(count) => {
                        lemma_failure_keeps_committed(
                            stored.1,
                            urls,
                            from + 1,
                            found + records.len(),
                            count,
                        );
                    },
                    Err(_) => {},
                }
            },
        }
    }
}

/// A URL for which no parser is registered, or which does not parse, is
/// passed over: the machine asks for nothing on its account, notes it, keeps
/// both counts, and goes on to the URL that it would have turned to next.
pub proof fn law_url_without_parser_is_passed_over(s: CrawlView, at: int)
    requires
        0 <= at < s.urls.len(),
        parser_for_url(s.urls[at]) is Err,
    ensures
        ({
            let turned = s.turn_to(at);
            let otherwise = s.turn_to(at + 1);
            &&& turned.1 == otherwise.1
            &&& turned.0.cursor == otherwise.0.cursor
            &&& turned.0.cursor > at
            &&& turned.0.phase == otherwise.0.phase
            &&& turned.0.found == s.found
            &&& turned.0.inserted == s.inserted
            &&& turned.0.skipped.len() > s.skipped.len()
            &&& turned.0.skipped[s.skipped.len() as int] == (SkippedView {
                url: s.urls[at],
                error: parser_for_url(s.urls[at])->Err_0,
            })
        }),
{
    let to = seek(s.urls, at);
    lemma_seek_bounds(s.urls, at + 1);
    lemma_passed_over_begins(s.urls, at, to);
}

proof fn lemma_seek_bounds(urls: Seq<Seq<char>>, from: int)
    requires
        0 <= from <= urls.len(),
    ensures
        from <= seek(urls, from) <= urls.len(),
        seek(urls, from) < urls.len() ==> parser_for_url(urls[seek(urls, from)]) is Ok,
    decreases urls.len() - from,
{
    if from < urls.len() && parser_for_url(urls[from]) is Err {
        lemma_seek_bounds(urls, from + 1);
    }
}

proof fn lemma_passed_over_begins(urls: Seq<Seq<char>>, from: int, to: int)
    requires
        0 <= from < to <= urls.len(),
    ensures
        passed_over(urls, from, to).len() == to - from,
        passed_over(urls, from, to)[0] == (SkippedView {
            url: urls[from],
            error: parser_for_url(urls[from])->Err_0,
        }),
    decreases to - from,
{
    if from + 1 < to {
        lemma_passed_over_begins(urls, from, to - 1);
    } else {
        assert(passed_over(urls, from, from).len() == 0);
    }
}

/// A URL without a parser changes nothing in the outcome of a crawl: the
/// rest of the batch is crawled as if the URL were not there.
pub proof fn law_url_without_parser_costs_nothing(
    w: World,
    urls: Seq<Seq<char>>,
    at: int,
    found: int,
    inserted: int,
)
    requires
        0 <= at < urls.len(),
        parser_for_url(urls[at]) is Err,
    ensures
        w.crawl_from(urls, at, found, inserted) == w.crawl_from(urls, at + 1, found, inserted),
{
}

/// A URL whose page is not had, because the request fails, the status is no
/// success, the body cannot be read or the parser refuses it, does not end
/// the crawl and changes neither the counts nor the store: the rest of the
/// batch is crawled as if the URL were not there.
pub proof fn law_failed_page_is_isolated(
    w: World,
    urls: Seq<Seq<char>>,
    at: int,
    found: int,
    inserted: int,
)
    requires
        0 <= at < urls.len(),
        w.page(urls[at]) is None,
    ensures
        ({
            let with = w.crawl_from(urls, at, found, inserted);
            let without = w.crawl_from(urls, at + 1, found, inserted);
            with.result == without.result && with.world == without.world
        }),
{
}

proof fn lemma_crawl_without(
    w: World,
    urls: Seq<Seq<char>>,
    at: int,
    from: int,
    found: int,
    inserted: int,
)
    requires
        0 <= at < urls.len(),
        parser_for_url(urls[at]) is Err,
        0 <= from <= urls.len(),
    ensures
        w.crawl_from(urls, from, found, inserted) == w.crawl_from(
            urls.remove(at),
            if from > at {
                from - 1
            } else {
                from
            },
            found,
            inserted,
        ),
    decreases urls.len() - from,
{
    let fewer = urls.remove(at);
    let there = if from > at {
        from - 1
    } else {
        from
    };
    if from >= urls.len() {
    } else if from == at {
        lemma_crawl_without(w, urls, at, from + 1, found, inserted);
    } else {
        assert(urls[from] == fewer[there]);
        match page_of(w.web, urls[from]) {
            None => {
                lemma_crawl_without(w, urls, at, from + 1, found, inserted);
            },
            Some(records) => {
                let stored = w.insert_rest(records, 0, inserted);
                match stored.0 {
                    Ok(count) => {
                        lemma_crawl_without(
                            stored.1,
                            urls,
                            at,
                            from + 1,
                            found + records.len(),
                            count,
                        );
                    },
                    Err(_) => {},
                }
            },
        }
    }
}

/// A batch that holds a URL without a parser is crawled as the batch
/// without that URL: the same result, the same store, the same requests.
pub proof fn law_batch_without_the_url(w: World, urls: Seq<Seq<char>>, at: int)
    requires
        0 <= at < urls.len(),
        parser_for_url(urls[at]) is Err,
    ensures
        w.crawl(urls) == w.crawl(urls.remove(at)),
{
    if w.begin_failure is None {
        lemma_crawl_without(w.rolled_back(), urls, at, 0, 0, 0);
    }
}

/// A page without records counts nothing and asks for no insert: the
/// machine turns to the next URL at once.
pub proof fn law_empty_page_counts_nothing(s: CrawlView)
    requires
        s.phase == Phase::Reading,
    ensures
        s.step(InputView::Parsed(Ok(Seq::empty()))) == s.turn_to(s.cursor + 1),
        s.turn_to(s.cursor + 1).0.found == s.found,
        s.turn_to(s.cursor + 1).0.inserted == s.inserted,
{
}

/// Once the store has refused an insert, the machine asks for the rollback
/// and then finishes with the store's error, whatever the rollback comes to
/// and whatever URLs are left: it asks for no request, no insert and no
/// commit any more.
pub proof fn law_store_failure_is_fatal(s: CrawlView, message: Seq<char>, rollback: InputView)
    requires
        s.phase == Phase::Inserting,
        rollback is Done || rollback is Failed,
    ensures
        ({
            let failed = s.step(InputView::Failed(message));
            let ended = failed.0.step(rollback);
            &&& failed.1 == ActionView::Rollback
            &&& ended.1 == ActionView::Finish(
                Err::<(int, int), CrawlErrorView>(CrawlErrorView::Database(message)),
            )
            &&& ended.0.phase == Phase::Finished
            &&& forall|input: InputView| #[trigger] ended.0.step(input) == ended
        }),
{
}

/// Every step keeps the machine in a state that a crawl goes through; the
/// counts never fall, and no more rows are counted than records found.
pub proof fn law_steps_keep_the_state_valid(s: CrawlView, input: InputView)
    requires
        s.valid(),
    ensures
        s.step(input).0.valid(),
        s.step(input).0.urls == s.urls,
        s.step(input).0.found >= s.found,
        s.step(input).0.inserted >= s.inserted,
        s.step(input).0.inserted <= s.step(input).0.found,
        s.step(input).0.inserted <= s.inserted + 1,
{
    lemma_seek_bounds(s.urls, 0);
    if s.cursor < s.urls.len() {
        lemma_seek_bounds(s.urls, s.cursor + 1);
    }
}

} // verus!
