use paperdeck::models::{
    no_paper_message, AuthToken, Conference, CrawlPayload, CrawlResponse, LoginPayload,
    NextPaperParams, Paper, PaperStatus, RegisterPayload, StatusPayload, User,
};

#[test]
fn a_status_is_named_as_it_is_written() {
    assert_eq!(PaperStatus::Liked.label(), "Liked");
    assert_eq!(PaperStatus::Read.label(), "Read");
    assert_eq!(StatusPayload { status: PaperStatus::Read }.status, PaperStatus::Read);
}

#[test]
fn an_empty_conference_name_is_no_filter() {
    let asked = NextPaperParams { conference: Some("USENIX Security".to_string()), year: Some(2024) };
    assert_eq!(asked.conference_filter(), Some(&"USENIX Security".to_string()));
    let empty = NextPaperParams { conference: Some(String::new()), year: None };
    assert_eq!(empty.conference_filter(), None);
    let absent = NextPaperParams { conference: None, year: Some(2024) };
    assert_eq!(absent.conference_filter(), None);
    let blank = NextPaperParams { conference: Some(" ".to_string()), year: None };
    assert_eq!(blank.conference_filter(), Some(&" ".to_string()));
}

#[test]
fn the_message_tells_rated_from_missing() {
    assert_eq!(no_paper_message(true), "All papers matching these filters have been rated.");
    assert_eq!(no_paper_message(false), "No papers found matching the specified filters.");
}

#[test]
fn the_values_keep_what_they_are_given() {
    let paper = Paper {
        id: 1,
        conference_name: "SEC".to_string(),
        year: 2024,
        title: "T".to_string(),
        url: None,
        authors: Some("A".to_string()),
        abstract_text: None,
    };
    assert_eq!(paper.clone(), paper);
    assert_eq!(Conference { name: "SEC".to_string(), year: 2024 }.year, 2024);
    let user = User { user_id: 3, username: "u".to_string(), password_hash: "h".to_string() };
    assert_eq!(user.user_id, 3);
    let register = RegisterPayload { username: "u".to_string(), password: "p".to_string() };
    let login = LoginPayload { username: "u".to_string(), password: "p".to_string() };
    assert_eq!(register.username, login.username);
    assert_eq!(
        AuthToken { token: "t".to_string(), token_type: "Bearer".to_string() }.token_type,
        "Bearer"
    );
    assert_eq!(CrawlPayload { urls: vec!["a".to_string()] }.urls.len(), 1);
    assert_eq!(CrawlResponse { message: "m".to_string() }.message, "m");
}
