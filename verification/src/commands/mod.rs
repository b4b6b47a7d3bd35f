//! One module per resource: each builds the GraphQL request for its
//! operations and reads the typed mutation payloads.

pub mod comment;
pub mod cycle;
pub mod document;
pub mod issue;
pub mod label;
pub mod project;
pub mod search;
pub mod team;
pub mod update;
pub mod user;
pub mod workflow;

use vstd::prelude::*;
use crate::json::Json;
use crate::json::JsonVal;
use crate::json::ObjBuilder;

verus! {

/// Every subcommand of the client.
#[allow(inconsistent_fields)]
pub enum Commands {
    User { command: user::UserCommands },
    Issue { command: issue::IssueCommands },
    Team { command: team::TeamCommands },
    Project { command: project::ProjectCommands },
    Cycle { command: cycle::CycleCommands },
    Label { command: label::LabelCommands },
    Workflow { command: workflow::WorkflowCommands },
    Comment { command: comment::CommentCommands },
    Document { command: document::DocumentCommands },
    Search(search::SearchArgs),
    /// Replace the running executable with the latest released build.
    Update,
}

/// The model of a one-field equality condition: {key: {"eq": value}}.
pub open spec fn eq_cond(key: Seq<char>, value: Seq<char>) -> JsonVal {
    JsonVal::Obj(seq![(key, JsonVal::Obj(seq![("eq"@, JsonVal::Str(value))]))])
}

/// Builds {key: {"eq": value}}.
pub fn eq_cond_json(key: &str, value: &str) -> (j: Json)
    ensures
        j@ == eq_cond(key@, value@),
{
    let mut inner = ObjBuilder::new();
    inner.push_str("eq", value);
    let mut outer = ObjBuilder::new();
    outer.push_json(key, inner.finish());
    let j = outer.finish();
    proof {
        let iv = seq![("eq"@, JsonVal::Str(value@))];
        assert(Seq::<(Seq<char>, JsonVal)>::empty().push(("eq"@, JsonVal::Str(value@))) =~= iv);
        let ov = seq![(key@, JsonVal::Obj(iv))];
        assert(Seq::<(Seq<char>, JsonVal)>::empty().push((key@, JsonVal::Obj(iv))) =~= ov);
    }
    j
}

} // verus!
