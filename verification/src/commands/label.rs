//! Label operations: list labels, optionally per team.

use vstd::prelude::*;
use crate::client::GraphQlRequest;
use crate::commands::eq_cond;
use crate::commands::eq_cond_json;
use crate::json::Json;
use crate::json::JsonVal;
use crate::json::ObjBuilder;

verus! {

pub enum LabelCommands {
    /// List labels.
    List(ListLabelArgs),
}

pub struct ListLabelArgs {
    /// Only labels of the team with this key.
    pub team: Option<String>,
}

/// A label as the service reports it.
pub struct Label {
    pub id: String,
    pub name: String,
    pub color: String,
}

pub open spec fn labels_query_text() -> Seq<char> {
    "query Labels($filter: IssueLabelFilter) { issueLabels(filter: $filter) { nodes { id name color } } }"@
}

pub fn labels_query() -> (q: &'static str)
    ensures
        q@ == labels_query_text(),
{
    "query Labels($filter: IssueLabelFilter) { issueLabels(filter: $filter) { nodes { id name color } } }"
}

/// The filter fields of a label listing: a team condition exactly when the
/// caller supplied one.
pub open spec fn label_filter_fields(args: ListLabelArgs) -> Seq<(Seq<char>, JsonVal)> {
    if args.team is Some {
        Seq::<(Seq<char>, JsonVal)>::empty().push(("team"@, eq_cond("key"@, args.team->0@)))
    } else {
        Seq::<(Seq<char>, JsonVal)>::empty()
    }
}

/// The model of the variables of a label listing.
pub open spec fn list_variables_val(args: ListLabelArgs) -> JsonVal {
    JsonVal::Obj(seq![("filter"@, JsonVal::Obj(label_filter_fields(args)))])
}

/// The request of the label list command.  With no team supplied the filter
/// has no fields at all.
pub fn list_request(args: &ListLabelArgs) -> (r: GraphQlRequest)
    ensures
        r.query@ == labels_query_text(),
        r.variables@ == list_variables_val(*args),
        args.team is None ==> r.variables@ == JsonVal::Obj(
            seq![("filter"@, JsonVal::Obj(Seq::<(Seq<char>, JsonVal)>::empty()))],
        ),
{
    let mut f = ObjBuilder::new();
    if let Some(team) = &args.team {
        f.push_json("team", eq_cond_json("key", team.as_str()));
    }
    let filter: Json = f.finish();
    let mut b = ObjBuilder::new();
    b.push_json("filter", filter);
    let v = b.finish();
    proof {
        let fs = seq![("filter"@, JsonVal::Obj(label_filter_fields(*args)))];
        assert(Seq::<(Seq<char>, JsonVal)>::empty().push(fs[0]) =~= fs);
    }
    GraphQlRequest { query: String::from_str(labels_query()), variables: v }
}

} // verus!
