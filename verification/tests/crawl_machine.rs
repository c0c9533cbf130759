use paperdeck::crawl::{summarize, Action, Crawl, Event, Input, Phase};
use paperdeck::error::CrawlError;
use paperdeck::record::Record;

const A: &str = "https://www.usenix.org/conference/a/technical-sessions";
const B: &str = "https://www.usenix.org/conference/b/technical-sessions";
const ELSEWHERE: &str = "https://example.com/papers";

/// What the scripted web answers for a URL.
enum Answer {
    Unreachable(&'static str),
    Status(u16, &'static str),
    Page(String),
    BrokenBody(&'static str),
}

/// A store that inserts or ignores, with one open transaction.
struct Store {
    committed: Vec<Record>,
    staged: Option<Vec<Record>>,
    refuse_title: Option<&'static str>,
    refuse_begin: bool,
    refuse_commit: bool,
}

impl Store {
    fn new() -> Store {
        Store {
            committed: Vec::new(),
            staged: None,
            refuse_title: None,
            refuse_begin: false,
            refuse_commit: false,
        }
    }
}

fn listing(conference: &str, titles: &[&str]) -> String {
    let mut html = format!("<html><head><title>{} '24 Technical Sessions | USENIX</title></head><body>", conference);
    for t in titles {
        html.push_str(&format!(
            "<article class=\"node-paper\"><h2><a href=\"/p/{}\">{}</a></h2>\
             <div class=\"field-name-field-paper-people-text\"><p>Author of {}</p></div>\
             <div class=\"field-name-field-paper-description-long\"><p>About {}.</p></div></article>",
            t, t, t, t
        ));
    }
    html.push_str("</body></html>");
    html
}

/// Drives a crawl to its end against the scripted web and the store.
fn run(urls: &[&str], web: &dyn Fn(&str) -> Answer, store: &mut Store) -> (Result<(usize, usize), CrawlError>, Vec<Action>, Crawl) {
    let mut crawl = Crawl::new(urls.iter().map(|u| u.to_string()).collect());
    let mut trace = Vec::new();
    let mut body: Option<Result<String, &'static str>> = None;
    let mut action = crawl.begin();
    loop {
        let event = match &action {
            Action::Begin => {
                if store.refuse_begin {
                    Event::Failed("cannot open transaction".to_string())
                } else {
                    store.staged = Some(store.committed.clone());
                    Event::Done
                }
            }
            Action::Send(url) => match web(url) {
                Answer::Unreachable(m) => Event::Failed(m.to_string()),
                Answer::Status(code, text) => Event::Status(code, text.to_string()),
                Answer::Page(html) => {
                    body = Some(Ok(html));
                    Event::Status(200, "200 OK".to_string())
                }
                Answer::BrokenBody(m) => {
                    body = Some(Err(m));
                    Event::Status(200, "200 OK".to_string())
                }
            },
            Action::ReadBody => match body.take().unwrap() {
                Ok(html) => Event::Body(html),
                Err(m) => Event::Failed(m.to_string()),
            },
            Action::Insert(record) => {
                if store.refuse_title == Some(record.title.as_str()) {
                    Event::Failed("store failed".to_string())
                } else {
                    let staged = store.staged.as_mut().unwrap();
                    if staged.contains(record) {
                        Event::Inserted(0)
                    } else {
                        staged.push(record.clone());
                        Event::Inserted(1)
                    }
                }
            }
            Action::Commit => {
                if store.refuse_commit {
                    store.staged = None;
                    Event::Failed("commit failed".to_string())
                } else {
                    store.committed = store.staged.take().unwrap();
                    Event::Done
                }
            }
            Action::Rollback => {
                store.staged = None;
                Event::Done
            }
            Action::Finish(_) => break,
        };
        trace.push(action);
        action = crawl.step(event).unwrap();
    }
    match action {
        Action::Finish(result) => (result, trace, crawl),
        _ => unreachable!(),
    }
}

fn two_pages(url: &str) -> Answer {
    match url {
        A => Answer::Page(listing("Alpha", &["a1", "a2"])),
        B => Answer::Page(listing("Beta", &["b1", "b2", "b3"])),
        _ => Answer::Status(404, "404 Not Found"),
    }
}

#[test]
fn every_record_of_every_page_is_found_and_inserted() {
    let mut store = Store::new();
    let (result, trace, crawl) = run(&[A, B], &two_pages, &mut store);
    assert_eq!(result, Ok((5, 5)));
    assert_eq!(store.committed.len(), 5);
    assert_eq!(store.committed[0].title, "a1");
    assert_eq!(store.committed[4].title, "b3");
    assert_eq!(store.committed[4].conference_name, "Beta");
    assert_eq!(crawl.phase(), Phase::Finished);
    assert_eq!(crawl.found(), 5);
    assert_eq!(crawl.inserted(), 5);
    assert!(crawl.skipped().is_empty());
    assert_eq!(trace.first(), Some(&Action::Begin));
    assert_eq!(trace.last(), Some(&Action::Commit));
    assert_eq!(trace.iter().filter(|a| matches!(a, Action::Insert(_))).count(), 5);
    assert_eq!(trace[1], Action::Send(A.to_string()));
    assert_eq!(trace[2], Action::ReadBody);
}

#[test]
fn a_url_without_a_parser_is_skipped_and_the_next_one_processed() {
    let mut store = Store::new();
    let (result, trace, crawl) = run(&[ELSEWHERE, "not a url", B], &two_pages, &mut store);
    assert_eq!(result, Ok((3, 3)));
    assert!(!trace.contains(&Action::Send(ELSEWHERE.to_string())));
    assert!(trace.contains(&Action::Send(B.to_string())));
    let skipped = crawl.skipped();
    assert_eq!(skipped.len(), 2);
    assert_eq!(skipped[0].url, ELSEWHERE);
    assert_eq!(skipped[0].error, CrawlError::NoParserFound(ELSEWHERE.to_string()));
    assert_eq!(skipped[1].url, "not a url");
    assert_eq!(skipped[1].error, CrawlError::Url("relative URL without a base".to_string()));
}

#[test]
fn a_batch_of_unknown_hosts_only_finds_nothing_and_commits() {
    let mut store = Store::new();
    let (result, trace, crawl) = run(&[ELSEWHERE, ELSEWHERE], &two_pages, &mut store);
    assert_eq!(result, Ok((0, 0)));
    assert_eq!(trace, vec![Action::Begin, Action::Commit]);
    assert_eq!(crawl.skipped().len(), 2);
}

#[test]
fn an_empty_batch_commits_at_once() {
    let mut store = Store::new();
    let (result, trace, _) = run(&[], &two_pages, &mut store);
    assert_eq!(result, Ok((0, 0)));
    assert_eq!(trace, vec![Action::Begin, Action::Commit]);
}

#[test]
fn a_second_run_of_the_same_batch_finds_the_same_and_inserts_nothing() {
    let mut store = Store::new();
    let (first, _, _) = run(&[A, ELSEWHERE, B], &two_pages, &mut store);
    assert_eq!(first, Ok((5, 5)));
    let (second, _, _) = run(&[A, ELSEWHERE, B], &two_pages, &mut store);
    assert_eq!(second, Ok((5, 0)));
    assert_eq!(store.committed.len(), 5);
}

#[test]
fn a_record_that_occurs_twice_is_inserted_once() {
    let web = |url: &str| match url {
        A => Answer::Page(listing("Alpha", &["same", "same", "other"])),
        _ => Answer::Page(listing("Alpha", &["other", "new"])),
    };
    let mut store = Store::new();
    let (result, _, _) = run(&[A, A], &web, &mut store);
    assert_eq!(result, Ok((6, 2)));
    assert_eq!(store.committed.len(), 2);
}

#[test]
fn a_failed_fetch_does_not_stop_the_batch() {
    let web = |url: &str| match url {
        A => Answer::Unreachable("connection reset"),
        _ => Answer::Page(listing("Beta", &["b1", "b2", "b3"])),
    };
    let mut store = Store::new();
    let (result, _, crawl) = run(&[A, B], &web, &mut store);
    assert_eq!(result, Ok((3, 3)));
    assert_eq!(store.committed.len(), 3);
    let skipped = crawl.skipped();
    assert_eq!(skipped.len(), 1);
    assert_eq!(skipped[0].url, A);
    assert_eq!(skipped[0].error, CrawlError::Fetch("connection reset".to_string()));
}

#[test]
fn a_status_that_is_no_success_skips_the_url() {
    let web = |url: &str| match url {
        A => Answer::Status(404, "404 Not Found"),
        _ => Answer::Status(301, "301 Moved Permanently"),
    };
    let mut store = Store::new();
    let (result, trace, crawl) = run(&[A, B], &web, &mut store);
    assert_eq!(result, Ok((0, 0)));
    assert!(!trace.contains(&Action::ReadBody));
    let skipped = crawl.skipped();
    assert_eq!(
        skipped[0].error,
        CrawlError::Http(format!("HTTP Error for {}: 404 Not Found", A))
    );
    assert_eq!(
        skipped[1].error,
        CrawlError::Http(format!("HTTP Error for {}: 301 Moved Permanently", B))
    );
}

#[test]
fn the_bounds_of_success_are_200_and_299() {
    for (code, reads) in [(199u16, false), (200, true), (204, true), (299, true), (300, false)] {
        let mut crawl = Crawl::new(vec![A.to_string()]);
        crawl.begin();
        assert_eq!(crawl.step(Event::Done), Some(Action::Send(A.to_string())));
        let action = crawl.step(Event::Status(code, code.to_string())).unwrap();
        assert_eq!(action == Action::ReadBody, reads);
        assert_eq!(crawl.phase() == Phase::Reading, reads);
    }
}

#[test]
fn a_body_that_cannot_be_read_skips_the_url() {
    let web = |url: &str| match url {
        A => Answer::BrokenBody("body cut short"),
        _ => Answer::Page(listing("Beta", &["b1"])),
    };
    let mut store = Store::new();
    let (result, _, crawl) = run(&[A, B], &web, &mut store);
    assert_eq!(result, Ok((1, 1)));
    assert_eq!(crawl.skipped()[0].error, CrawlError::Fetch("body cut short".to_string()));
}

#[test]
fn a_page_that_does_not_parse_skips_the_url() {
    let web = |url: &str| match url {
        A => Answer::Page("<html><body>no title here</body></html>".to_string()),
        _ => Answer::Page(listing("Beta", &["b1"])),
    };
    let mut store = Store::new();
    let (result, _, crawl) = run(&[A, B], &web, &mut store);
    assert_eq!(result, Ok((1, 1)));
    assert_eq!(crawl.skipped()[0].url, A);
    assert_eq!(crawl.skipped()[0].error, CrawlError::Parse("missing page title".to_string()));
}

#[test]
fn a_page_without_entries_inserts_nothing() {
    let web = |url: &str| match url {
        A => Answer::Page(listing("Alpha", &[])),
        _ => Answer::Page(listing("Beta", &["b1"])),
    };
    let mut store = Store::new();
    let (result, trace, crawl) = run(&[A, B], &web, &mut store);
    assert_eq!(result, Ok((1, 1)));
    assert!(crawl.skipped().is_empty());
    assert_eq!(trace.iter().filter(|a| matches!(a, Action::Insert(_))).count(), 1);
}

#[test]
fn a_store_failure_rolls_back_and_ends_the_batch() {
    let mut store = Store::new();
    store.refuse_title = Some("b2");
    let (result, trace, crawl) = run(&[A, B, A], &two_pages, &mut store);
    assert_eq!(result, Err(CrawlError::Database("store failed".to_string())));
    assert!(store.committed.is_empty());
    assert_eq!(trace.last(), Some(&Action::Rollback));
    assert!(!trace.contains(&Action::Commit));
    assert_eq!(trace.iter().filter(|a| matches!(a, Action::Send(_))).count(), 2);
    assert_eq!(crawl.phase(), Phase::Finished);
    assert_eq!(
        summarize(&result),
        Err("Database error: store failed".to_string())
    );
}

#[test]
fn a_store_failure_leaves_earlier_contents_alone() {
    let mut store = Store::new();
    let (first, _, _) = run(&[A], &two_pages, &mut store);
    assert_eq!(first, Ok((2, 2)));
    store.refuse_title = Some("b3");
    let (second, _, _) = run(&[A, B], &two_pages, &mut store);
    assert_eq!(second, Err(CrawlError::Database("store failed".to_string())));
    assert_eq!(store.committed.len(), 2);
}

#[test]
fn a_transaction_that_does_not_open_ends_the_batch() {
    let mut store = Store::new();
    store.refuse_begin = true;
    let (result, trace, _) = run(&[A, B], &two_pages, &mut store);
    assert_eq!(result, Err(CrawlError::Database("cannot open transaction".to_string())));
    assert_eq!(trace, vec![Action::Begin]);
}

#[test]
fn a_commit_that_fails_is_reported() {
    let mut store = Store::new();
    store.refuse_commit = true;
    let (result, trace, _) = run(&[A], &two_pages, &mut store);
    assert_eq!(result, Err(CrawlError::Database("commit failed".to_string())));
    assert_eq!(trace.last(), Some(&Action::Commit));
    assert!(store.committed.is_empty());
}

#[test]
fn an_answer_to_another_question_changes_nothing() {
    let mut crawl = Crawl::new(vec![A.to_string()]);
    assert_eq!(crawl.begin(), Action::Begin);
    assert_eq!(crawl.begin(), Action::Begin);
    assert_eq!(crawl.step(Event::Inserted(1)), Some(Action::Begin));
    assert_eq!(crawl.step(Event::Body("<title>x</title>".to_string())), Some(Action::Begin));
    assert_eq!(crawl.phase(), Phase::Beginning);
    assert_eq!(crawl.step(Event::Done), Some(Action::Send(A.to_string())));
    assert_eq!(crawl.step(Event::Done), Some(Action::Send(A.to_string())));
    assert_eq!(crawl.step(Event::Status(200, "200 OK".to_string())), Some(Action::ReadBody));
    assert_eq!(crawl.step(Event::Status(200, "200 OK".to_string())), Some(Action::ReadBody));
    assert_eq!(crawl.found(), 0);
}

#[test]
fn a_finished_crawl_repeats_its_result() {
    let mut crawl = Crawl::new(Vec::new());
    crawl.begin();
    assert_eq!(crawl.step(Event::Done), Some(Action::Commit));
    assert_eq!(crawl.step(Event::Done), Some(Action::Finish(Ok((0, 0)))));
    assert_eq!(crawl.step(Event::Failed("late".to_string())), Some(Action::Finish(Ok((0, 0)))));
    assert_eq!(crawl.apply(Input::Done), Action::Finish(Ok((0, 0))));
}

#[test]
fn a_crawl_not_yet_begun_begins_on_any_input() {
    let mut crawl = Crawl::new(vec![A.to_string()]);
    assert_eq!(crawl.phase(), Phase::Created);
    assert_eq!(crawl.step(Event::Done), Some(Action::Begin));
    assert_eq!(crawl.phase(), Phase::Beginning);
}

#[test]
fn parsed_records_are_counted_and_inserted_one_by_one() {
    let record = |title: &str| Record {
        conference_name: "C".to_string(),
        year: 2024,
        title: title.to_string(),
        source_url: "u".to_string(),
        authors: "a".to_string(),
        abstract_text: "t".to_string(),
    };
    let mut crawl = Crawl::new(vec![A.to_string(), B.to_string()]);
    crawl.begin();
    crawl.apply(Input::Done);
    crawl.apply(Input::Status(200, "200 OK".to_string()));
    let action = crawl.apply(Input::Parsed(Ok(vec![record("x"), record("y")])));
    assert_eq!(action, Action::Insert(record("x")));
    assert_eq!((crawl.found(), crawl.inserted()), (2, 0));
    assert_eq!(crawl.apply(Input::Inserted(1)), Action::Insert(record("y")));
    assert_eq!((crawl.found(), crawl.inserted()), (2, 1));
    assert_eq!(crawl.apply(Input::Inserted(0)), Action::Send(B.to_string()));
    assert_eq!((crawl.found(), crawl.inserted()), (2, 1));
    crawl.apply(Input::Status(200, "200 OK".to_string()));
    let action = crawl.apply(Input::Parsed(Err(CrawlError::Parse("missing page title".to_string()))));
    assert_eq!(action, Action::Commit);
    assert_eq!(crawl.apply(Input::Done), Action::Finish(Ok((2, 1))));
}

#[test]
fn more_than_one_row_still_counts_one_insert() {
    let record = Record {
        conference_name: "C".to_string(),
        year: 2024,
        title: "t".to_string(),
        source_url: "u".to_string(),
        authors: "a".to_string(),
        abstract_text: "t".to_string(),
    };
    let mut crawl = Crawl::new(vec![A.to_string()]);
    crawl.begin();
    crawl.apply(Input::Done);
    crawl.apply(Input::Status(200, "200 OK".to_string()));
    crawl.apply(Input::Parsed(Ok(vec![record])));
    crawl.apply(Input::Inserted(3));
    assert_eq!(crawl.inserted(), 1);
}

#[test]
fn the_summary_names_both_counts() {
    assert_eq!(
        summarize(&Ok((3, 3))),
        Ok("Crawl complete. Total papers found: 3. Total new papers inserted: 3.".to_string())
    );
    assert_eq!(
        summarize(&Ok((120, 0))),
        Ok("Crawl complete. Total papers found: 120. Total new papers inserted: 0.".to_string())
    );
    assert_eq!(
        summarize(&Err(CrawlError::Database("no such table: papers".to_string()))),
        Err("Database error: no such table: papers".to_string())
    );
}
