//! The values that the service exchanges with its clients and its store.

use vstd::prelude::*;
use vstd::string::*;

verus! {

/// What a user has made of a paper.
#[derive(Debug, Clone, Copy, PartialEq, Eq, Structural)]
pub enum PaperStatus {
    Liked,
    Read,
}

/// A paper as the store holds it.
#[derive(Debug, Clone, PartialEq, Eq)]
pub struct Paper {
    /// The identity that the store assigned.
    pub id: i64,
    pub conference_name: String,
    pub year: i64,
    pub title: String,
    pub url: Option<String>,
    pub authors: Option<String>,
    pub abstract_text: Option<String>,
}

/// A conference and a year for which the store holds papers.
#[derive(Debug, Clone, PartialEq, Eq)]
pub struct Conference {
    pub name: String,
    pub year: i64,
}

/// The body of a request that sets a paper's status.
#[derive(Debug, Clone, Copy, PartialEq, Eq, Structural)]
pub struct StatusPayload {
    pub status: PaperStatus,
}

/// A user as the store holds it.
#[derive(Debug, Clone, PartialEq, Eq)]
pub struct User {
    pub user_id: i64,
    pub username: String,
    /// The encoded hash of the password; never sent to a client.
    pub password_hash: String,
}

/// The body of a registration.
#[derive(Debug, Clone, PartialEq, Eq)]
pub struct RegisterPayload {
    pub username: String,
    pub password: String,
}

/// The body of a login.
#[derive(Debug, Clone, PartialEq, Eq)]
pub struct LoginPayload {
    pub username: String,
    pub password: String,
}

/// The token handed out by a login.
#[derive(Debug, Clone, PartialEq, Eq)]
pub struct AuthToken {
    pub token: String,
    pub token_type: String,
}

/// The body of a request for a crawl.
#[derive(Debug, Clone, PartialEq, Eq)]
pub struct CrawlPayload {
    pub urls: Vec<String>,
}

/// The answer to a request for a crawl.
#[derive(Debug, Clone, PartialEq, Eq)]
pub struct CrawlResponse {
    pub message: String,
}

/// The filters of a request for the next paper.
#[derive(Debug, Clone, PartialEq, Eq)]
pub struct NextPaperParams {
    pub conference: Option<String>,
    pub year: Option<i64>,
}

/// What is said when every paper that fits the filters has been rated.
pub const ALL_RATED: &'static str = "All papers matching these filters have been rated.";

/// What is said when no paper fits the filters.
pub const NONE_MATCHING: &'static str = "No papers found matching the specified filters.";

impl PaperStatus {
    /// The name of the status.
    pub fn label(&self) -> (r: &'static str)
        ensures
            r@ == match self {
                PaperStatus::Liked => "Liked"@,
                PaperStatus::Read => "Read"@,
            },
    {
        match self {
            PaperStatus::Liked => "Liked",
            PaperStatus::Read => "Read",
        }
    }
}

impl NextPaperParams {
    /// The conference to filter by: the one asked for, unless its name is empty.
    pub fn conference_filter(&self) -> (r: Option<&String>)
        ensures
            match r {
                Some(name) => self.conference == Some(*name) && name@.len() > 0,
                None => match self.conference {
                    Some(name) => name@.len() == 0,
                    None => true,
                },
            },
    {
        match &self.conference {
            Some(name) => if name.as_str().is_empty() {
                None
            } else {
                Some(name)
            },
            None => None,
        }
    }
}

/// What to tell a user for whom no unrated paper was found: whether papers
/// that fit the filters exist at all decides.
pub fn no_paper_message(matching_exist: bool) -> (r: &'static str)
    ensures
        r@ == if matching_exist {
            ALL_RATED@
        } else {
            NONE_MATCHING@
        },
{
    if matching_exist {
        ALL_RATED
    } else {
        NONE_MATCHING
    }
}

} // verus!
