//! Verified core of a command-line client for the Linear issue tracker.
//!
//! The crate builds GraphQL requests (query text plus a JSON variables
//! object), classifies HTTP and GraphQL-envelope outcomes into an error
//! taxonomy, renders typed results as text, and decides whether and what a
//! self-update should download.  Network and file I/O live outside the
//! library; every function here is verified.

pub mod client;
pub mod commands;
pub mod error;
pub mod json;
pub mod output;
pub mod text;
