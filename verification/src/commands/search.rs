//! Full-text issue search.

use vstd::prelude::*;
use crate::client::GraphQlRequest;
use crate::json::JsonVal;
use crate::json::ObjBuilder;

verus! {

pub struct SearchArgs {
    /// Search text.
    pub query: String,
    /// How many results to ask for at most.
    pub limit: u32,
}

/// One search hit.
pub struct SearchResult {
    pub id: String,
    pub identifier: String,
    pub title: String,
    pub state: Option<SearchState>,
}

pub struct SearchState {
    pub name: String,
}

pub open spec fn search_query_text() -> Seq<char> {
    "query SearchIssues($query: String!, $first: Int) { searchIssues(query: $query, first: $first) { nodes { id identifier title state { name } } } }"@
}

pub fn search_query() -> (q: &'static str)
    ensures
        q@ == search_query_text(),
{
    "query SearchIssues($query: String!, $first: Int) { searchIssues(query: $query, first: $first) { nodes { id identifier title state { name } } } }"
}

/// The model of the variables of a search.
pub open spec fn search_variables_val(args: SearchArgs) -> JsonVal {
    JsonVal::Obj(
        seq![("query"@, JsonVal::Str(args.query@)), ("first"@, JsonVal::Int(args.limit as int))],
    )
}

/// The request of the search command.
pub fn search_request(args: &SearchArgs) -> (r: GraphQlRequest)
    ensures
        r.query@ == search_query_text(),
        r.variables@ == search_variables_val(*args),
{
    let mut b = ObjBuilder::new();
    b.push_str("query", args.query.as_str());
    b.push_int("first", args.limit as i64);
    let v = b.finish();
    proof {
        let fs = seq![
            ("query"@, JsonVal::Str(args.query@)),
            ("first"@, JsonVal::Int(args.limit as int)),
        ];
        assert(Seq::<(Seq<char>, JsonVal)>::empty().push(fs[0]).push(fs[1]) =~= fs);
    }
    GraphQlRequest { query: String::from_str(search_query()), variables: v }
}

} // verus!
