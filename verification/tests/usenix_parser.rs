use chrono::Datelike;
use paperdeck::error::CrawlError;
use paperdeck::record::Record;
use paperdeck::html::Inner;
use paperdeck::usenix::{
    conference_info_from, entry_from_outline, page_title_from, read_entries, record_from_entry,
    records_from_entries, year_suffix_of, EntryFacts, LinkFacts, UsenixParser,
};
use paperdeck::weburl::WebUrl;

const PAGE_URL: &str = "https://www.usenix.org/conference/usenixsecurity24/technical-sessions";

fn page(title: Option<&str>, articles: &[&str]) -> String {
    let mut html = String::from("<!DOCTYPE html><html><head>");
    if let Some(t) = title {
        html.push_str("<title>");
        html.push_str(t);
        html.push_str("</title>");
    }
    html.push_str("</head><body><main>");
    for a in articles {
        html.push_str(a);
    }
    html.push_str("</main></body></html>");
    html
}

fn full_article(slug: &str, title: &str, authors: &str, paragraphs: &[&str]) -> String {
    let mut html = String::from("<article class=\"node node-paper view-mode-schedule\">");
    html.push_str(&format!("<h2 class=\"node-title\"><a href=\"/conference/usenixsecurity24/presentation/{}\"> {} </a></h2>", slug, title));
    html.push_str(&format!(
        "<div class=\"field field-name-field-paper-people-text\"><p>\n {} \n</p></div>",
        authors
    ));
    html.push_str("<div class=\"field field-name-field-paper-description-long\">");
    for p in paragraphs {
        html.push_str(&format!("<p>{}</p>", p));
    }
    html.push_str("</div></article>");
    html
}

fn current_year() -> i32 {
    chrono::Utc::now().year()
}

#[test]
fn title_with_a_year_gives_name_and_year() {
    let (name, year) =
        UsenixParser::extract_conference_info("USENIX Security '24 Technical Sessions | USENIX");
    assert_eq!(name, "USENIX Security");
    assert_eq!(year, 2024);
}

#[test]
fn title_without_a_year_falls_back_to_the_first_part_and_this_year() {
    let before = current_year();
    let (name, year) = UsenixParser::extract_conference_info("Random Page | Site");
    let after = current_year();
    assert_eq!(name, "Random Page");
    assert!(before <= year && year <= after);
}

#[test]
fn the_year_needs_no_apostrophe() {
    assert_eq!(
        UsenixParser::extract_conference_info("NSDI 23 Technical Sessions"),
        ("NSDI".to_string(), 2023)
    );
    assert_eq!(UsenixParser::extract_conference_info("OSDI  '02"), ("OSDI".to_string(), 2002));
}

#[test]
fn the_shortest_name_before_two_digits_is_taken() {
    assert_eq!(
        UsenixParser::extract_conference_info("FAST '21 and FAST '22 | USENIX"),
        ("FAST".to_string(), 2021)
    );
    assert_eq!(
        UsenixParser::extract_conference_info("The 2024 Symposium"),
        ("The".to_string(), 2020)
    );
}

#[test]
fn digits_of_other_scripts_count_as_zero() {
    assert_eq!(
        UsenixParser::extract_conference_info("ATC '\u{0662}\u{0664}"),
        ("ATC".to_string(), 2000)
    );
}

#[test]
fn title_without_a_delimiter_is_the_name() {
    let (name, _) = UsenixParser::extract_conference_info("  Workshops  ");
    assert_eq!(name, "Workshops");
    let (name, _) = UsenixParser::extract_conference_info("");
    assert_eq!(name, "");
}

#[test]
fn conference_info_from_captured_groups() {
    let groups = Some(vec![
        Some("SOUPS '19".to_string()),
        Some("SOUPS ".to_string()),
        Some("19".to_string()),
    ]);
    assert_eq!(conference_info_from(&groups, "ignored", 1999), ("SOUPS".to_string(), 2019));
    let short = Some(vec![Some("x".to_string())]);
    assert_eq!(conference_info_from(&short, "ignored", 1999), (String::new(), 2000));
    let absent = Some(vec![Some("x".to_string()), None, None]);
    assert_eq!(conference_info_from(&absent, "ignored", 1999), (String::new(), 2000));
    assert_eq!(conference_info_from(&None, " A | B ", 1999), ("A".to_string(), 1999));
}

#[test]
fn two_digits_give_their_number() {
    assert_eq!(year_suffix_of("24"), 24);
    assert_eq!(year_suffix_of("00"), 0);
    assert_eq!(year_suffix_of("99"), 99);
    assert_eq!(year_suffix_of("7"), 0);
    assert_eq!(year_suffix_of("123"), 0);
    assert_eq!(year_suffix_of("2x"), 0);
    assert_eq!(year_suffix_of(""), 0);
}

#[test]
fn page_title_is_trimmed_or_missing() {
    assert_eq!(page_title_from(Some("\n  SEC '24 \n".to_string())), Ok("SEC '24".to_string()));
    assert_eq!(
        page_title_from(None),
        Err(CrawlError::Parse("missing page title".to_string()))
    );
}

#[test]
fn the_facts_of_a_page_are_read_entry_by_entry() {
    let article = "<article class=\"node-paper\">\
        <h2><a href=\"/one\">One</a> <a href=\"/two\">Two</a></h2>\
        <div class=\"field-name-field-paper-people-text\"><p>First block</p><p>Second block</p></div>\
        <div class=\"field-name-field-paper-description-long\"><p>a</p><div><p>b</p></div></div>\
        <div class=\"field-name-field-paper-description-long\"><p>c</p></div></article>";
    let bare = "<article class=\"node-paper\"><h2>no link</h2></article>";
    let html = page(Some("SEC '24"), &[article, bare]);
    assert_eq!(
        read_entries(&html),
        Ok(vec![
            EntryFacts {
                link: Some(LinkFacts { text: "One".to_string(), href: Some("/one".to_string()) }),
                authors: Some("First block".to_string()),
                paragraphs: Some(vec!["a".to_string(), "b".to_string()]),
            },
            EntryFacts { link: None, authors: None, paragraphs: None },
        ])
    );
    assert_eq!(read_entries("plain text"), Ok(Vec::new()));
}

#[test]
fn the_first_element_of_each_field_makes_the_facts() {
    let inner = |text: &str, attr: Option<&str>, parts: &[&str]| Inner {
        text: text.to_string(),
        attr: attr.map(|a| a.to_string()),
        parts: parts.iter().map(|p| p.to_string()).collect(),
    };
    let found = vec![
        vec![inner("Link", Some("/l"), &[]), inner("Other", Some("/o"), &[])],
        vec![inner("Authors", None, &["ignored"])],
        vec![inner("", None, &["p1", "p2"]), inner("", None, &["p3"])],
    ];
    assert_eq!(
        entry_from_outline(&found),
        EntryFacts {
            link: Some(LinkFacts { text: "Link".to_string(), href: Some("/l".to_string()) }),
            authors: Some("Authors".to_string()),
            paragraphs: Some(vec!["p1".to_string(), "p2".to_string()]),
        }
    );
    let short = vec![vec![], vec![inner("A", None, &[])]];
    assert_eq!(
        entry_from_outline(&short),
        EntryFacts { link: None, authors: Some("A".to_string()), paragraphs: None }
    );
    assert_eq!(
        entry_from_outline(&Vec::new()),
        EntryFacts { link: None, authors: None, paragraphs: None }
    );
}

#[test]
fn a_full_entry_gives_a_full_record() {
    let html = page(
        Some("USENIX Security '24 Technical Sessions | USENIX"),
        &[&full_article(
            "doe",
            "A Study of Things",
            "Jane Doe, <em>Example University</em>; John Roe, Another Lab",
            &["First paragraph.", "Second paragraph."],
        )],
    );
    let records = UsenixParser.parse_and_extract(&html, PAGE_URL).unwrap();
    assert_eq!(
        records,
        vec![Record {
            conference_name: "USENIX Security".to_string(),
            year: 2024,
            title: "A Study of Things".to_string(),
            source_url: "https://www.usenix.org/conference/usenixsecurity24/presentation/doe"
                .to_string(),
            authors: "Jane Doe, Example University; John Roe, Another Lab".to_string(),
            abstract_text: "First paragraph.\nSecond paragraph.".to_string(),
        }]
    );
}

#[test]
fn an_entry_without_authors_gets_the_placeholder() {
    let article = "<article class=\"node-paper\"><h2><a href=\"/p/1\">Title One</a></h2>\
        <div class=\"field-name-field-paper-description-long\"><p>Text.</p></div></article>";
    let html = page(Some("USENIX Security '24 Technical Sessions | USENIX"), &[article]);
    let records = UsenixParser.parse_and_extract(&html, PAGE_URL).unwrap();
    assert_eq!(records.len(), 1);
    assert_eq!(records[0].authors, "Authors not found");
    assert_eq!(records[0].conference_name, "USENIX Security");
    assert_eq!(records[0].year, 2024);
    assert_eq!(records[0].title, "Title One");
    assert_eq!(records[0].source_url, "https://www.usenix.org/p/1");
    assert_eq!(records[0].abstract_text, "Text.");
}

#[test]
fn authors_are_found_under_the_second_marker() {
    let article = "<article class=\"node-paper\"><h2><a href=\"/p/2\">Talk</a></h2>\
        <div class=\"field-name-field-presented-by\"><p> A. Speaker </p></div></article>";
    let html = page(Some("LISA '19"), &[article]);
    let records = UsenixParser.parse_and_extract(&html, PAGE_URL).unwrap();
    assert_eq!(records[0].authors, "A. Speaker");
    assert_eq!(records[0].abstract_text, "Abstract not found");
}

#[test]
fn an_empty_entry_gets_every_placeholder() {
    let html = page(Some("SEC '24"), &["<article class=\"node-paper\"></article>"]);
    let records = UsenixParser.parse_and_extract(&html, PAGE_URL).unwrap();
    assert_eq!(
        records,
        vec![Record {
            conference_name: "SEC".to_string(),
            year: 2024,
            title: "Paper title not found".to_string(),
            source_url: "Paper URL not found".to_string(),
            authors: "Authors not found".to_string(),
            abstract_text: "Abstract not found".to_string(),
        }]
    );
}

#[test]
fn a_link_without_a_target_keeps_its_title() {
    let article = "<article class=\"node-paper\"><h2><a> Untargeted </a></h2></article>";
    let html = page(Some("SEC '24"), &[article]);
    let records = UsenixParser.parse_and_extract(&html, PAGE_URL).unwrap();
    assert_eq!(records[0].title, "Untargeted");
    assert_eq!(records[0].source_url, "Paper URL not found");
}

#[test]
fn an_abstract_of_white_space_counts_as_absent() {
    let article = "<article class=\"node-paper\"><h2><a href=\"x\">T</a></h2>\
        <div class=\"field-name-field-paper-description-long\"><p>  </p><p>\n</p></div></article>";
    let html = page(Some("SEC '24"), &[article]);
    let records = UsenixParser.parse_and_extract(&html, PAGE_URL).unwrap();
    assert_eq!(records[0].abstract_text, "Abstract not found");
    let bare = "<article class=\"node-paper\">\
        <div class=\"field-name-field-paper-description-long\">no paragraph</div></article>";
    let html = page(Some("SEC '24"), &[bare]);
    let records = UsenixParser.parse_and_extract(&html, PAGE_URL).unwrap();
    assert_eq!(records[0].abstract_text, "Abstract not found");
}

#[test]
fn a_page_without_entries_gives_no_records_and_no_error() {
    let html = page(Some("USENIX Security '24 Technical Sessions | USENIX"), &[]);
    assert_eq!(UsenixParser.parse_and_extract(&html, PAGE_URL), Ok(Vec::new()));
    let other = page(Some("SEC '24"), &["<article class=\"node-session\"><h2>Track</h2></article>"]);
    assert_eq!(UsenixParser.parse_and_extract(&other, PAGE_URL), Ok(Vec::new()));
}

#[test]
fn a_page_without_a_title_is_refused() {
    let html = page(None, &[&full_article("doe", "T", "A", &["P"])]);
    assert_eq!(
        UsenixParser.parse_and_extract(&html, PAGE_URL),
        Err(CrawlError::Parse("missing page title".to_string()))
    );
    assert_eq!(
        UsenixParser.parse_and_extract("", PAGE_URL),
        Err(CrawlError::Parse("missing page title".to_string()))
    );
}

#[test]
fn a_malformed_page_url_is_refused_before_the_page_is_looked_at() {
    let html = page(None, &[]);
    assert_eq!(
        UsenixParser.parse_and_extract(&html, "technical-sessions"),
        Err(CrawlError::Url("relative URL without a base".to_string()))
    );
}

#[test]
fn entries_come_in_document_order() {
    let html = page(
        Some("OSDI '22"),
        &[
            &full_article("a", "First", "A", &["1"]),
            &full_article("b", "Second", "B", &["2"]),
            &full_article("c", "Third", "C", &["3"]),
        ],
    );
    let records = UsenixParser.parse_and_extract(&html, PAGE_URL).unwrap();
    let titles: Vec<&str> = records.iter().map(|r| r.title.as_str()).collect();
    assert_eq!(titles, vec!["First", "Second", "Third"]);
    assert!(records.iter().all(|r| r.conference_name == "OSDI" && r.year == 2022));
}

#[test]
fn a_target_that_does_not_resolve_is_explained() {
    let base = WebUrl::parse(PAGE_URL).unwrap();
    let entry = EntryFacts {
        link: Some(LinkFacts { text: " Broken ".to_string(), href: Some("http://[::1".to_string()) }),
        authors: Some(" Someone ".to_string()),
        paragraphs: Some(vec![" one".to_string(), "two ".to_string()]),
    };
    let record = record_from_entry("SEC", 2024, &base, &entry);
    assert_eq!(
        record,
        Record {
            conference_name: "SEC".to_string(),
            year: 2024,
            title: "Broken".to_string(),
            source_url: format!(
                "Failed to join URL: http://[::1 with base {}: invalid IPv6 address",
                PAGE_URL
            ),
            authors: "Someone".to_string(),
            abstract_text: "one\ntwo".to_string(),
        }
    );
}

#[test]
fn records_follow_the_entries_one_for_one() {
    let base = WebUrl::parse(PAGE_URL).unwrap();
    let bare = EntryFacts { link: None, authors: None, paragraphs: None };
    let linked = EntryFacts {
        link: Some(LinkFacts { text: "T".to_string(), href: Some("t".to_string()) }),
        authors: None,
        paragraphs: Some(Vec::new()),
    };
    let records = records_from_entries("C", 2001, &base, &vec![bare.clone(), linked, bare]);
    assert_eq!(records.len(), 3);
    assert_eq!(records[0].title, "Paper title not found");
    assert_eq!(records[1].title, "T");
    assert_eq!(
        records[1].source_url,
        "https://www.usenix.org/conference/usenixsecurity24/t"
    );
    assert_eq!(records[1].abstract_text, "Abstract not found");
    assert_eq!(records[2], records[0]);
    assert_eq!(records_from_entries("C", 2001, &base, &Vec::new()), Vec::new());
}

#[test]
fn only_the_first_link_block_and_container_of_an_entry_are_read() {
    let article = "<article class=\"node-paper\">\
        <h2><a href=\"/one\">One</a> <a href=\"/two\">Two</a></h2>\
        <div class=\"field-name-field-paper-people-text\"><p>First block</p><p>Second block</p></div>\
        <div class=\"field-name-field-paper-description-long\"><p>a</p><div><p>b</p></div></div>\
        <div class=\"field-name-field-paper-description-long\"><p>c</p></div></article>";
    let html = page(Some("SEC '24"), &[article]);
    let records = UsenixParser.parse_and_extract(&html, PAGE_URL).unwrap();
    assert_eq!(records.len(), 1);
    assert_eq!(records[0].title, "One");
    assert_eq!(records[0].source_url, "https://www.usenix.org/one");
    assert_eq!(records[0].authors, "First block");
    assert_eq!(records[0].abstract_text, "a\nb");
}

#[test]
fn the_steps_of_the_parser_agree_with_the_whole() {
    let html = page(Some(" HotOS '23 | USENIX "), &[&full_article("x", "X", "Y", &["Z"])]);
    let title = UsenixParser::extract_page_title(&html).unwrap();
    assert_eq!(title, "HotOS '23 | USENIX");
    let (name, year) = UsenixParser::extract_conference_info(&title);
    let base = WebUrl::parse(PAGE_URL).unwrap();
    let papers = UsenixParser::extract_papers(&html, &name, year, &base);
    assert_eq!(papers, UsenixParser.parse_and_extract(&html, PAGE_URL));
    assert_eq!(papers.unwrap()[0].conference_name, "HotOS");
}

#[test]
fn only_the_first_title_element_in_the_head_is_the_page_title() {
    let html = "<html><head><title> First </title><title>Second</title></head>\
        <body><svg><title>Drawing</title></svg></body></html>";
    assert_eq!(UsenixParser::extract_page_title(html), Ok("First".to_string()));
    let empty = "<html><head><title></title></head><body></body></html>";
    assert_eq!(UsenixParser::extract_page_title(empty), Ok(String::new()));
    let outside = "<html><head></head><body><svg><title>Drawing</title></svg></body></html>";
    assert_eq!(
        UsenixParser::extract_page_title(outside),
        Err(CrawlError::Parse("missing page title".to_string()))
    );
}

#[test]
fn the_given_year_is_used_only_where_the_title_names_none() {
    let plain = page(Some("Workshop Program | USENIX"), &[&full_article("w", "W", "A", &["P"])]);
    let records = UsenixParser.parse_in_year(&plain, PAGE_URL, 1999).unwrap();
    assert_eq!(records[0].conference_name, "Workshop Program");
    assert_eq!(records[0].year, 1999);
    let dated = page(Some("WOOT '17 Program"), &[&full_article("w", "W", "A", &["P"])]);
    let records = UsenixParser.parse_in_year(&dated, PAGE_URL, 1999).unwrap();
    assert_eq!(records[0].conference_name, "WOOT");
    assert_eq!(records[0].year, 2017);
    assert_eq!(
        UsenixParser.parse_in_year(&dated, "no url", 1999),
        Err(CrawlError::Url("relative URL without a base".to_string()))
    );
}
