//! Cycle operations: list cycles, get one.

use vstd::prelude::*;
use crate::client::GraphQlRequest;
use crate::commands::eq_cond;
use crate::commands::eq_cond_json;
use crate::json::JsonVal;
use crate::json::ObjBuilder;

verus! {

pub enum CycleCommands {
    /// List cycles.
    List(ListCycleArgs),
    /// Get cycle details.
    Get(GetCycleArgs),
}

pub struct ListCycleArgs {
    /// Only cycles of the team with this key.
    pub team: Option<String>,
    /// How many cycles to ask for at most.
    pub limit: u32,
}

pub struct GetCycleArgs {
    /// Cycle id.
    pub id: String,
}

/// A cycle as shown in a listing.  Progress is held as a whole percentage
/// (0 to 100), already rounded from the fraction the service reports.
pub struct Cycle {
    pub id: String,
    pub number: i32,
    pub name: Option<String>,
    pub starts_at: String,
    pub ends_at: String,
    pub progress_percent: u32,
}

/// Everything shown for a single cycle.
pub struct CycleDetail {
    pub id: String,
    pub number: i32,
    pub name: Option<String>,
    pub starts_at: String,
    pub ends_at: String,
    pub progress_percent: u32,
    pub description: Option<String>,
}

pub open spec fn cycles_query_text() -> Seq<char> {
    "query Cycles($first: Int, $filter: CycleFilter) { cycles(first: $first, filter: $filter) { nodes { id number name startsAt endsAt progress } } }"@
}

pub fn cycles_query() -> (q: &'static str)
    ensures
        q@ == cycles_query_text(),
{
    "query Cycles($first: Int, $filter: CycleFilter) { cycles(first: $first, filter: $filter) { nodes { id number name startsAt endsAt progress } } }"
}

pub open spec fn cycle_query_text() -> Seq<char> {
    "query Cycle($id: String!) { cycle(id: $id) { id number name startsAt endsAt progress description } }"@
}

pub fn cycle_query() -> (q: &'static str)
    ensures
        q@ == cycle_query_text(),
{
    "query Cycle($id: String!) { cycle(id: $id) { id number name startsAt endsAt progress description } }"
}

/// The filter fields of a cycle listing: a team condition exactly when the
/// caller supplied one.
pub open spec fn cycle_filter_fields(args: ListCycleArgs) -> Seq<(Seq<char>, JsonVal)> {
    if args.team is Some {
        Seq::<(Seq<char>, JsonVal)>::empty().push(("team"@, eq_cond("key"@, args.team->0@)))
    } else {
        Seq::<(Seq<char>, JsonVal)>::empty()
    }
}

/// The model of the variables of a cycle listing.
pub open spec fn list_variables_val(args: ListCycleArgs) -> JsonVal {
    JsonVal::Obj(
        seq![
            ("first"@, JsonVal::Int(args.limit as int)),
            ("filter"@, JsonVal::Obj(cycle_filter_fields(args))),
        ],
    )
}

/// The request of the cycle list command.  With no team supplied the filter
/// has no fields at all.
pub fn list_request(args: &ListCycleArgs) -> (r: GraphQlRequest)
    ensures
        r.query@ == cycles_query_text(),
        r.variables@ == list_variables_val(*args),
        args.team is None ==> cycle_filter_fields(*args) == Seq::<(Seq<char>, JsonVal)>::empty(),
{
    let mut f = ObjBuilder::new();
    if let Some(team) = &args.team {
        f.push_json("team", eq_cond_json("key", team.as_str()));
    }
    let mut b = ObjBuilder::new();
    b.push_int("first", args.limit as i64);
    b.push_json("filter", f.finish());
    let v = b.finish();
    proof {
        let fs = seq![
            ("first"@, JsonVal::Int(args.limit as int)),
            ("filter"@, JsonVal::Obj(cycle_filter_fields(*args))),
        ];
        assert(Seq::<(Seq<char>, JsonVal)>::empty().push(fs[0]).push(fs[1]) =~= fs);
    }
    GraphQlRequest { query: String::from_str(cycles_query()), variables: v }
}

/// The model of the variables of a cycle fetch.
pub open spec fn get_variables_val(args: GetCycleArgs) -> JsonVal {
    JsonVal::Obj(seq![("id"@, JsonVal::Str(args.id@))])
}

/// The request of the cycle get command.
pub fn get_request(args: &GetCycleArgs) -> (r: GraphQlRequest)
    ensures
        r.query@ == cycle_query_text(),
        r.variables@ == get_variables_val(*args),
{
    let mut b = ObjBuilder::new();
    b.push_str("id", args.id.as_str());
    let v = b.finish();
    proof {
        let fs = seq![("id"@, JsonVal::Str(args.id@))];
        assert(Seq::<(Seq<char>, JsonVal)>::empty().push(fs[0]) =~= fs);
    }
    GraphQlRequest { query: String::from_str(cycle_query()), variables: v }
}

} // verus!
