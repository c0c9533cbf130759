//! Paper ingestion for a reading deck: choose a site parser by host, turn a
//! conference listing page into records, and drive the crawl of a batch of
//! URLs as a state machine whose I/O the caller performs.

pub mod auth;
pub mod crawl;
pub mod error;
pub mod html;
pub mod laws;
pub mod model;
pub mod models;
pub mod pattern;
pub mod record;
pub mod registry;
pub mod text;
pub mod usenix;
pub mod weburl;
