use paperdeck::error::CrawlError;
use paperdeck::registry::{get_parser, registry, select_parser, ParserKind};
use paperdeck::weburl::WebUrl;

#[test]
fn usenix_hosts_get_the_usenix_parser() {
    assert_eq!(
        get_parser("https://www.usenix.org/conference/usenixsecurity24/technical-sessions"),
        Ok(ParserKind::Usenix)
    );
    assert_eq!(get_parser("http://usenix.org"), Ok(ParserKind::Usenix));
}

#[test]
fn a_host_without_a_parser_is_refused_with_the_url() {
    assert_eq!(
        get_parser("https://example.com/usenix.org"),
        Err(CrawlError::NoParserFound("https://example.com/usenix.org".to_string()))
    );
}

#[test]
fn a_malformed_url_is_refused_as_such() {
    assert_eq!(
        get_parser("not a url"),
        Err(CrawlError::Url("relative URL without a base".to_string()))
    );
    assert_eq!(get_parser("https://"), Err(CrawlError::Url("empty host".to_string())));
}

#[test]
fn a_url_without_a_host_matches_as_an_empty_host() {
    assert_eq!(
        get_parser("data:text/plain,usenix.org"),
        Err(CrawlError::NoParserFound("data:text/plain,usenix.org".to_string()))
    );
}

#[test]
fn the_pattern_may_stand_anywhere_in_the_host() {
    assert_eq!(select_parser("www.usenix.org"), Some(ParserKind::Usenix));
    assert_eq!(select_parser("usenix.org.mirror.example"), Some(ParserKind::Usenix));
    assert_eq!(select_parser("usenix.com"), None);
    assert_eq!(select_parser("usenix.or"), None);
    assert_eq!(select_parser(""), None);
}

#[test]
fn the_registry_lists_usenix() {
    let table = registry();
    assert_eq!(table.len(), 1);
    assert_eq!(table[0].pattern, "usenix.org");
    assert_eq!(table[0].parser, ParserKind::Usenix);
}

#[test]
fn parsing_normalizes_the_url_and_finds_the_host() {
    let url = WebUrl::parse("HTTPS://WWW.USENIX.ORG").unwrap();
    assert_eq!(url.text, "https://www.usenix.org/");
    assert_eq!(url.host, Some("www.usenix.org".to_string()));
    let url = WebUrl::parse("unix:/run/foo.socket").unwrap();
    assert_eq!(url.host, None);
    assert_eq!(WebUrl::parse("//no-scheme"), Err("relative URL without a base".to_string()));
}

#[test]
fn joining_resolves_against_the_base() {
    let base = WebUrl::parse("https://www.usenix.org/conference/sec24/technical-sessions").unwrap();
    assert_eq!(
        base.join("/conference/sec24/presentation/doe"),
        Ok("https://www.usenix.org/conference/sec24/presentation/doe".to_string())
    );
    assert_eq!(
        base.join("presentation/doe"),
        Ok("https://www.usenix.org/conference/sec24/presentation/doe".to_string())
    );
    assert_eq!(base.join("https://other.example/x"), Ok("https://other.example/x".to_string()));
    assert_eq!(base.join("http://[::1"), Err("invalid IPv6 address".to_string()));
}
