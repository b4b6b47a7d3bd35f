//! Workflow operations: list the workflow states of a team, ordered by
//! their display position.

use vstd::prelude::*;
use crate::client::GraphQlRequest;
use crate::json::JsonVal;
use crate::json::ObjBuilder;
use vstd::seq_lib::group_to_multiset_ensures;

verus! {

pub enum WorkflowCommands {
    /// List workflow states for a team.
    List(ListWorkflowArgs),
}

pub struct ListWorkflowArgs {
    /// Team key (required).
    pub team: String,
}

/// A workflow state as the service reports it.  The ordering position is
/// held as a scaled integer that orders the states as the service's
/// fractional position does.
pub struct WorkflowState {
    pub id: String,
    pub name: String,
    pub state_type: String,
    pub color: String,
    pub position: i64,
}

pub open spec fn workflow_states_query_text() -> Seq<char> {
    "query WorkflowStates($teamId: String!) { team(id: $teamId) { states { nodes { id name type color position } } } }"@
}

pub fn workflow_states_query() -> (q: &'static str)
    ensures
        q@ == workflow_states_query_text(),
{
    "query WorkflowStates($teamId: String!) { team(id: $teamId) { states { nodes { id name type color position } } } }"
}

/// The model of the variables of a workflow state listing.
pub open spec fn list_variables_val(args: ListWorkflowArgs) -> JsonVal {
    JsonVal::Obj(seq![("teamId"@, JsonVal::Str(args.team@))])
}

/// The request of the workflow list command.
pub fn list_request(args: &ListWorkflowArgs) -> (r: GraphQlRequest)
    ensures
        r.query@ == workflow_states_query_text(),
        r.variables@ == list_variables_val(*args),
{
    let mut b = ObjBuilder::new();
    b.push_str("teamId", args.team.as_str());
    let v = b.finish();
    proof {
        let fs = seq![("teamId"@, JsonVal::Str(args.team@))];
        assert(Seq::<(Seq<char>, JsonVal)>::empty().push(fs[0]) =~= fs);
    }
    GraphQlRequest { query: String::from_str(workflow_states_query()), variables: v }
}

/// Whether the states appear in order of non-decreasing position.
pub open spec fn sorted_by_position(s: Seq<WorkflowState>) -> bool {
    forall|i: int, j: int| 0 <= i < j < s.len() ==> #[trigger] s[i].position <= #[trigger] s[j].position
}

/// Sorts the states by their display position, keeping exactly the given
/// states.
pub fn sort_states(states: Vec<WorkflowState>) -> (r: Vec<WorkflowState>)
    ensures
        sorted_by_position(r@),
        r@.to_multiset() == states@.to_multiset(),
{
    broadcast use group_to_multiset_ensures;
    broadcast use vstd::multiset::group_multiset_axioms;

    let ghost all = states@;
    let mut rest = states;
    let mut out: Vec<WorkflowState> = Vec::new();
    proof {
        assert(out@.to_multiset().add(rest@.to_multiset()) =~= all.to_multiset());
    }
    while rest.len() > 0
        invariant
            out@.to_multiset().add(rest@.to_multiset()) == all.to_multiset(),
            sorted_by_position(out@),
            forall|i: int, j: int|
                0 <= i < out@.len() && 0 <= j < rest@.len() ==> #[trigger] out@[i].position
                    <= #[trigger] rest@[j].position,
        decreases rest.len(),
    {
        let mut m: usize = 0;
        let mut k: usize = 1;
        while k < rest.len()
            invariant
                m < k <= rest.len() || (k <= rest.len() && m == 0),
                m < rest.len(),
                forall|j: int| 0 <= j < k ==> rest@[m as int].position <= #[trigger] rest@[j].position,
            decreases rest.len() - k,
        {
            if rest[k].position < rest[m].position {
                m = k;
            }
            k = k + 1;
        }
        let ghost rest_before = rest@;
        let ghost out_before = out@;
        let x = rest.remove(m);
        out.push(x);
        proof {
            rest_before.to_multiset_ensures();
            out_before.to_multiset_ensures();
            assert(rest_before.contains(rest_before[m as int]));
            assert(rest@.to_multiset() =~= rest_before.to_multiset().remove(rest_before[m as int]));
            assert(out@.to_multiset() =~= out_before.to_multiset().insert(rest_before[m as int]));
            assert(rest_before.to_multiset().count(rest_before[m as int]) > 0);
            assert(out@.to_multiset().add(rest@.to_multiset()) =~= all.to_multiset());
            assert(forall|j: int|
                0 <= j < rest@.len() ==> #[trigger] rest@[j].position >= x.position) by {
                assert(forall|j: int|
                    0 <= j < rest@.len() ==> rest@[j] == if j < m {
                        rest_before[j]
                    } else {
                        rest_before[j + 1]
                    });
            }
        }
    }
    out
}

} // verus!
