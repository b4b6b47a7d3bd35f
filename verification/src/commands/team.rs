//! Team operations: list all teams, get one by key or id.

use vstd::prelude::*;
use crate::client::GraphQlRequest;
use crate::client::empty_variables;
use crate::json::JsonVal;
use crate::json::ObjBuilder;

verus! {

pub enum TeamCommands {
    /// List all teams.
    List,
    /// Get team details.
    Get(GetTeamArgs),
}

pub struct GetTeamArgs {
    /// Team key or id, e.g. ENG.
    pub key: String,
}

/// A team as the service reports it.
pub struct Team {
    pub id: String,
    pub key: String,
    pub name: String,
    pub description: Option<String>,
}

pub open spec fn teams_query_text() -> Seq<char> {
    "query Teams { teams { nodes { id key name description } } }"@
}

pub fn teams_query() -> (q: &'static str)
    ensures
        q@ == teams_query_text(),
{
    "query Teams { teams { nodes { id key name description } } }"
}

pub open spec fn team_query_text() -> Seq<char> {
    "query Team($id: String!) { team(id: $id) { id key name description } }"@
}

pub fn team_query() -> (q: &'static str)
    ensures
        q@ == team_query_text(),
{
    "query Team($id: String!) { team(id: $id) { id key name description } }"
}

/// The request of the team list command; it takes no variables.
pub fn list_request() -> (r: GraphQlRequest)
    ensures
        r.query@ == teams_query_text(),
        r.variables@ == JsonVal::Obj(Seq::<(Seq<char>, JsonVal)>::empty()),
{
    GraphQlRequest { query: String::from_str(teams_query()), variables: empty_variables() }
}

/// The model of the variables of a team fetch.
pub open spec fn get_variables_val(args: GetTeamArgs) -> JsonVal {
    JsonVal::Obj(seq![("id"@, JsonVal::Str(args.key@))])
}

/// The request of the team get command.
pub fn get_request(args: &GetTeamArgs) -> (r: GraphQlRequest)
    ensures
        r.query@ == team_query_text(),
        r.variables@ == get_variables_val(*args),
{
    let mut b = ObjBuilder::new();
    b.push_str("id", args.key.as_str());
    let v = b.finish();
    proof {
        let fs = seq![("id"@, JsonVal::Str(args.key@))];
        assert(Seq::<(Seq<char>, JsonVal)>::empty().push(fs[0]) =~= fs);
    }
    GraphQlRequest { query: String::from_str(team_query()), variables: v }
}

} // verus!
