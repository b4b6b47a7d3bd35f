//! User operations: show the authenticated user.

use vstd::prelude::*;
use crate::client::GraphQlRequest;
use crate::client::empty_variables;
use crate::json::JsonVal;

verus! {

pub enum UserCommands {
    /// Show the current authenticated user.
    Me,
}

pub open spec fn viewer_query_text() -> Seq<char> {
    "query Viewer { viewer { id name email } }"@
}

pub fn viewer_query() -> (q: &'static str)
    ensures
        q@ == viewer_query_text(),
{
    "query Viewer { viewer { id name email } }"
}

/// The request of the user me command; it takes no variables.
pub fn me_request() -> (r: GraphQlRequest)
    ensures
        r.query@ == viewer_query_text(),
        r.variables@ == JsonVal::Obj(Seq::<(Seq<char>, JsonVal)>::empty()),
{
    GraphQlRequest { query: String::from_str(viewer_query()), variables: empty_variables() }
}

} // verus!
