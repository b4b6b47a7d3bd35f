//! The error taxonomy of the client, with its exit codes and display text.

use vstd::prelude::*;
use crate::text::dec_str;
use crate::text::push_u64;

verus! {

/// Everything that can go wrong during one invocation.  All errors are
/// terminal for the invocation; none is retried.
#[derive(Debug, PartialEq, Eq)]
pub enum Error {
    /// The environment variable holding the API token is not set.
    MissingApiKey,
    /// The service rejected the token.
    Unauthorized,
    /// The requested entity does not exist.
    NotFound(String),
    /// The service asked the client to slow down; carries the number of
    /// seconds to wait before retrying.
    RateLimited(u64),
    /// The service reported one or more errors in the response envelope;
    /// carries their joined messages.
    GraphQL(String),
    /// The request never completed (DNS, TLS, timeout, ...).
    Network(String),
}

impl Error {
    /// The process exit code class of this error: 2 for credential problems,
    /// 3 for a missing entity, 4 for rate limiting, 1 for everything else.
    pub open spec fn spec_exit_code(&self) -> int {
        match self {
            Error::MissingApiKey => 2,
            Error::Unauthorized => 2,
            Error::NotFound(_) => 3,
            Error::RateLimited(_) => 4,
            Error::GraphQL(_) => 1,
            Error::Network(_) => 1,
        }
    }

    pub fn exit_code(&self) -> (c: i32)
        ensures
            c == self.spec_exit_code(),
    {
        match self {
            Error::MissingApiKey => 2,
            Error::Unauthorized => 2,
            Error::NotFound(_) => 3,
            Error::RateLimited(_) => 4,
            Error::GraphQL(_) => 1,
            Error::Network(_) => 1,
        }
    }

    /// The display text of this error.
    pub open spec fn spec_message(&self) -> Seq<char> {
        match self {
            Error::MissingApiKey => "LINEAR_API_KEY environment variable not set"@,
            Error::Unauthorized => "Authentication failed: invalid API key"@,
            Error::NotFound(what) => "Not found: "@ + what@,
            Error::RateLimited(secs) => "Rate limited, retry after "@ + dec_str(*secs as nat)
                + " seconds"@,
            Error::GraphQL(msg) => "GraphQL error: "@ + msg@,
            Error::Network(msg) => "Network error: "@ + msg@,
        }
    }

    pub fn message(&self) -> (r: String)
        ensures
            r@ == self.spec_message(),
    {
        match self {
            Error::MissingApiKey => String::from_str(
                "LINEAR_API_KEY environment variable not set",
            ),
            Error::Unauthorized => String::from_str("Authentication failed: invalid API key"),
            Error::NotFound(what) => {
                let mut r = String::from_str("Not found: ");
                r.append(what.as_str());
                r
            },
            Error::RateLimited(secs) => {
                let mut r = String::from_str("Rate limited, retry after ");
                push_u64(*secs, &mut r);
                r.append(" seconds");
                r
            },
            Error::GraphQL(msg) => {
                let mut r = String::from_str("GraphQL error: ");
                r.append(msg.as_str());
                r
            },
            Error::Network(msg) => {
                let mut r = String::from_str("Network error: ");
                r.append(msg.as_str());
                r
            },
        }
    }
}

} // verus!
