//! Issue operations: list with an optional filter, get one, create, update.

use vstd::prelude::*;
use crate::client::GraphQlRequest;
use crate::commands::eq_cond;
use crate::commands::eq_cond_json;
use crate::error::Error;
use crate::json::Json;
use crate::json::JsonVal;
use crate::json::ObjBuilder;
use crate::text::str_eq;

verus! {

pub enum IssueCommands {
    List(ListArgs),
    Get(GetArgs),
    Create(CreateArgs),
    Update(UpdateArgs),
}

/// Options of the issue list command; an absent option must not constrain
/// the result.
pub struct ListArgs {
    /// Only issues of the team with this key.
    pub team: Option<String>,
    /// Only issues in the workflow state with this name.
    pub state: Option<String>,
    /// Only issues of this assignee; "me" means the caller.
    pub assignee: Option<String>,
    /// How many issues to ask for at most.
    pub limit: u32,
}

pub struct GetArgs {
    /// Issue identifier, e.g. ENG-123.
    pub id: String,
}

pub struct CreateArgs {
    pub title: String,
    pub team: String,
    pub description: Option<String>,
    pub priority: Option<i32>,
}

pub struct UpdateArgs {
    pub id: String,
    pub title: Option<String>,
    pub state: Option<String>,
    pub priority: Option<i32>,
}

/// One row of an issue listing.
pub struct Issue {
    pub identifier: String,
    pub title: String,
    pub state: Option<IssueState>,
    pub assignee: Option<Assignee>,
    pub priority: i32,
}

pub struct IssueState {
    pub name: String,
}

pub struct Assignee {
    pub name: String,
}

/// Everything shown for a single issue.
pub struct IssueDetail {
    pub identifier: String,
    pub title: String,
    pub description: Option<String>,
    pub state: Option<IssueState>,
    pub assignee: Option<Assignee>,
    pub priority: i32,
    pub created_at: String,
    pub updated_at: String,
    pub team: Team,
}

pub struct Team {
    pub key: String,
    pub name: String,
}

/// What a successful create mutation reports back.
pub struct CreatedIssue {
    pub identifier: String,
    pub title: String,
    pub url: String,
}

/// What a successful update mutation reports back.
pub struct UpdatedIssue {
    pub identifier: String,
    pub title: String,
    pub state: Option<IssueState>,
}

pub open spec fn issues_query_text() -> Seq<char> {
    "query Issues($first: Int, $filter: IssueFilter) { issues(first: $first, filter: $filter) { nodes { identifier title state { name } assignee { name } priority } } }"@
}

pub fn issues_query() -> (q: &'static str)
    ensures
        q@ == issues_query_text(),
{
    "query Issues($first: Int, $filter: IssueFilter) { issues(first: $first, filter: $filter) { nodes { identifier title state { name } assignee { name } priority } } }"
}

pub open spec fn issue_query_text() -> Seq<char> {
    "query Issue($id: String!) { issue(id: $id) { identifier title description state { name } assignee { name } priority createdAt updatedAt team { key name } } }"@
}

pub fn issue_query() -> (q: &'static str)
    ensures
        q@ == issue_query_text(),
{
    "query Issue($id: String!) { issue(id: $id) { identifier title description state { name } assignee { name } priority createdAt updatedAt team { key name } } }"
}

pub open spec fn create_issue_mutation_text() -> Seq<char> {
    "mutation CreateIssue($input: IssueCreateInput!) { issueCreate(input: $input) { success issue { identifier title url } } }"@
}

pub fn create_issue_mutation() -> (q: &'static str)
    ensures
        q@ == create_issue_mutation_text(),
{
    "mutation CreateIssue($input: IssueCreateInput!) { issueCreate(input: $input) { success issue { identifier title url } } }"
}

pub open spec fn update_issue_mutation_text() -> Seq<char> {
    "mutation UpdateIssue($id: String!, $input: IssueUpdateInput!) { issueUpdate(id: $id, input: $input) { success issue { identifier title state { name } } } }"@
}

pub fn update_issue_mutation() -> (q: &'static str)
    ensures
        q@ == update_issue_mutation_text(),
{
    "mutation UpdateIssue($id: String!, $input: IssueUpdateInput!) { issueUpdate(id: $id, input: $input) { success issue { identifier title state { name } } } }"
}

/// The model of the assignee-is-me condition.
pub open spec fn is_me_cond() -> JsonVal {
    JsonVal::Obj(seq![("isMe"@, JsonVal::Obj(seq![("eq"@, JsonVal::Bool(true))]))])
}

/// The model of a one-field substring condition: {key: {"contains": value}}.
pub open spec fn contains_cond(key: Seq<char>, value: Seq<char>) -> JsonVal {
    JsonVal::Obj(seq![(key, JsonVal::Obj(seq![("contains"@, JsonVal::Str(value))]))])
}

fn is_me_json() -> (j: Json)
    ensures
        j@ == is_me_cond(),
{
    let mut inner = ObjBuilder::new();
    inner.push_json("eq", Json::Bool(true));
    let mut outer = ObjBuilder::new();
    outer.push_json("isMe", inner.finish());
    let j = outer.finish();
    proof {
        let iv = seq![("eq"@, JsonVal::Bool(true))];
        assert(Seq::<(Seq<char>, JsonVal)>::empty().push(("eq"@, JsonVal::Bool(true))) =~= iv);
        let ov = seq![("isMe"@, JsonVal::Obj(iv))];
        assert(Seq::<(Seq<char>, JsonVal)>::empty().push(("isMe"@, JsonVal::Obj(iv))) =~= ov);
    }
    j
}

fn contains_cond_json(key: &str, value: &str) -> (j: Json)
    ensures
        j@ == contains_cond(key@, value@),
{
    let mut inner = ObjBuilder::new();
    inner.push_str("contains", value);
    let mut outer = ObjBuilder::new();
    outer.push_json(key, inner.finish());
    let j = outer.finish();
    proof {
        let iv = seq![("contains"@, JsonVal::Str(value@))];
        assert(Seq::<(Seq<char>, JsonVal)>::empty().push(("contains"@, JsonVal::Str(value@)))
            =~= iv);
        let ov = seq![(key@, JsonVal::Obj(iv))];
        assert(Seq::<(Seq<char>, JsonVal)>::empty().push((key@, JsonVal::Obj(iv))) =~= ov);
    }
    j
}

/// The filter fields an issue listing sends: one entry for each option the
/// caller supplied, in a fixed order, and nothing for an absent option.
pub open spec fn issue_filter_fields(args: ListArgs) -> Seq<(Seq<char>, JsonVal)> {
    let f0 = Seq::<(Seq<char>, JsonVal)>::empty();
    let f1 = if args.team is Some {
        f0.push(("team"@, eq_cond("key"@, args.team->0@)))
    } else {
        f0
    };
    let f2 = if args.state is Some {
        f1.push(("state"@, eq_cond("name"@, args.state->0@)))
    } else {
        f1
    };
    if args.assignee is Some {
        if args.assignee->0@ == "me"@ {
            f2.push(("assignee"@, is_me_cond()))
        } else {
            f2.push(("assignee"@, contains_cond("name"@, args.assignee->0@)))
        }
    } else {
        f2
    }
}

/// Builds the filter object for an issue listing.  With no options supplied
/// the filter has no fields at all.
pub fn build_filter(args: &ListArgs) -> (f: Json)
    ensures
        f@ == JsonVal::Obj(issue_filter_fields(*args)),
        args.team is None && args.state is None && args.assignee is None ==> f@
            == JsonVal::Obj(Seq::<(Seq<char>, JsonVal)>::empty()),
{
    let mut b = ObjBuilder::new();
    if let Some(team) = &args.team {
        b.push_json("team", eq_cond_json("key", team.as_str()));
    }
    if let Some(state) = &args.state {
        b.push_json("state", eq_cond_json("name", state.as_str()));
    }
    if let Some(assignee) = &args.assignee {
        if str_eq(assignee.as_str(), "me") {
            b.push_json("assignee", is_me_json());
        } else {
            b.push_json("assignee", contains_cond_json("name", assignee.as_str()));
        }
    }
    b.finish()
}

/// The model of the variables of an issue listing.
pub open spec fn list_variables_val(args: ListArgs) -> JsonVal {
    JsonVal::Obj(
        seq![
            ("first"@, JsonVal::Int(args.limit as int)),
            ("filter"@, JsonVal::Obj(issue_filter_fields(args))),
        ],
    )
}

/// The request of the issue list command.
pub fn list_request(args: &ListArgs) -> (r: GraphQlRequest)
    ensures
        r.query@ == issues_query_text(),
        r.variables@ == list_variables_val(*args),
{
    let filter = build_filter(args);
    let mut b = ObjBuilder::new();
    b.push_int("first", args.limit as i64);
    b.push_json("filter", filter);
    let v = b.finish();
    proof {
        let fs = seq![
            ("first"@, JsonVal::Int(args.limit as int)),
            ("filter"@, JsonVal::Obj(issue_filter_fields(*args))),
        ];
        assert(Seq::<(Seq<char>, JsonVal)>::empty().push(fs[0]).push(fs[1]) =~= fs);
    }
    GraphQlRequest { query: String::from_str(issues_query()), variables: v }
}

/// The model of the variables of an issue fetch.
pub open spec fn get_variables_val(args: GetArgs) -> JsonVal {
    JsonVal::Obj(seq![("id"@, JsonVal::Str(args.id@))])
}

/// The request of the issue get command.
pub fn get_request(args: &GetArgs) -> (r: GraphQlRequest)
    ensures
        r.query@ == issue_query_text(),
        r.variables@ == get_variables_val(*args),
{
    let mut b = ObjBuilder::new();
    b.push_str("id", args.id.as_str());
    let v = b.finish();
    proof {
        let fs = seq![("id"@, JsonVal::Str(args.id@))];
        assert(Seq::<(Seq<char>, JsonVal)>::empty().push(fs[0]) =~= fs);
    }
    GraphQlRequest { query: String::from_str(issue_query()), variables: v }
}

/// The input fields of an issue creation: title and team always, then one
/// entry for each optional field the caller supplied.
pub open spec fn create_input_fields(args: CreateArgs) -> Seq<(Seq<char>, JsonVal)> {
    let f0 = seq![("title"@, JsonVal::Str(args.title@)), ("teamId"@, JsonVal::Str(args.team@))];
    let f1 = if args.description is Some {
        f0.push(("description"@, JsonVal::Str(args.description->0@)))
    } else {
        f0
    };
    if args.priority is Some {
        f1.push(("priority"@, JsonVal::Int(args.priority->0 as int)))
    } else {
        f1
    }
}

/// The model of the variables of an issue creation.
pub open spec fn create_variables_val(args: CreateArgs) -> JsonVal {
    JsonVal::Obj(seq![("input"@, JsonVal::Obj(create_input_fields(args)))])
}

/// The request of the issue create command.
pub fn create_request(args: &CreateArgs) -> (r: GraphQlRequest)
    ensures
        r.query@ == create_issue_mutation_text(),
        r.variables@ == create_variables_val(*args),
{
    let mut input = ObjBuilder::new();
    input.push_str("title", args.title.as_str());
    input.push_str("teamId", args.team.as_str());
    if let Some(desc) = &args.description {
        input.push_str("description", desc.as_str());
    }
    if let Some(priority) = args.priority {
        input.push_int("priority", priority as i64);
    }
    proof {
        let f0 = seq![
            ("title"@, JsonVal::Str(args.title@)),
            ("teamId"@, JsonVal::Str(args.team@)),
        ];
        assert(Seq::<(Seq<char>, JsonVal)>::empty().push(f0[0]).push(f0[1]) =~= f0);
    }
    let mut b = ObjBuilder::new();
    b.push_json("input", input.finish());
    let v = b.finish();
    proof {
        let fs = seq![("input"@, JsonVal::Obj(create_input_fields(*args)))];
        assert(Seq::<(Seq<char>, JsonVal)>::empty().push(fs[0]) =~= fs);
    }
    GraphQlRequest { query: String::from_str(create_issue_mutation()), variables: v }
}

/// The input fields of an issue update: one entry for each field the caller
/// supplied, and nothing else.
pub open spec fn update_input_fields(args: UpdateArgs) -> Seq<(Seq<char>, JsonVal)> {
    let f0 = Seq::<(Seq<char>, JsonVal)>::empty();
    let f1 = if args.title is Some {
        f0.push(("title"@, JsonVal::Str(args.title->0@)))
    } else {
        f0
    };
    let f2 = if args.state is Some {
        f1.push(("stateId"@, JsonVal::Str(args.state->0@)))
    } else {
        f1
    };
    if args.priority is Some {
        f2.push(("priority"@, JsonVal::Int(args.priority->0 as int)))
    } else {
        f2
    }
}

/// The model of the variables of an issue update.
pub open spec fn update_variables_val(args: UpdateArgs) -> JsonVal {
    JsonVal::Obj(
        seq![
            ("id"@, JsonVal::Str(args.id@)),
            ("input"@, JsonVal::Obj(update_input_fields(args))),
        ],
    )
}

/// The request of the issue update command, or nothing when no field to
/// change was supplied: then no call is to be made at all.
pub fn update_request(args: &UpdateArgs) -> (r: Option<GraphQlRequest>)
    ensures
        r is None <==> args.title is None && args.state is None && args.priority is None,
        r is Some ==> r->0.query@ == update_issue_mutation_text(),
        r is Some ==> r->0.variables@ == update_variables_val(*args),
{
    let mut input = ObjBuilder::new();
    if let Some(title) = &args.title {
        input.push_str("title", title.as_str());
    }
    if let Some(state) = &args.state {
        input.push_str("stateId", state.as_str());
    }
    if let Some(priority) = args.priority {
        input.push_int("priority", priority as i64);
    }
    if input.len() == 0 {
        return None;
    }
    let mut b = ObjBuilder::new();
    b.push_str("id", args.id.as_str());
    b.push_json("input", input.finish());
    let v = b.finish();
    proof {
        let fs = seq![
            ("id"@, JsonVal::Str(args.id@)),
            ("input"@, JsonVal::Obj(update_input_fields(*args))),
        ];
        assert(Seq::<(Seq<char>, JsonVal)>::empty().push(fs[0]).push(fs[1]) =~= fs);
    }
    Some(GraphQlRequest { query: String::from_str(update_issue_mutation()), variables: v })
}

/// What the client reports when an update command names no field to change.
pub open spec fn no_updates_text() -> Seq<char> {
    "No updates specified. Use --title, --state, or --priority.\n"@
}

pub fn no_updates_message() -> (r: String)
    ensures
        r@ == no_updates_text(),
{
    String::from_str("No updates specified. Use --title, --state, or --priority.\n")
}

/// The report of a successful issue creation.
pub open spec fn created_issue_text(i: CreatedIssue) -> Seq<char> {
    "Created "@ + i.identifier@ + " - "@ + i.title@ + "\n"@ + i.url@ + "\n"@
}

/// Reads the payload of the create mutation: a false success flag is a
/// failure even without a reported error; a true one yields the report, or
/// nothing to say when the service returned no issue.
pub fn create_issue_report(success: bool, issue: &Option<CreatedIssue>) -> (r: Result<
    Option<String>,
    Error,
>)
    ensures
        !success ==> (r matches Err(Error::GraphQL(m)) && m@ == "Failed to create issue"@),
        success ==> match issue {
            Some(i) => (r matches Ok(s) && s matches Some(t) && t@ == created_issue_text(*i)),
            None => (r matches Ok(s) && s is None),
        },
{
    if !success {
        return Err(Error::GraphQL(String::from_str("Failed to create issue")));
    }
    match issue {
        Some(i) => {
            let mut t = String::from_str("Created ");
            t.append(i.identifier.as_str());
            t.append(" - ");
            t.append(i.title.as_str());
            t.append("\n");
            t.append(i.url.as_str());
            t.append("\n");
            Ok(Some(t))
        },
        None => Ok(None),
    }
}

/// The report of a successful issue update; a missing state shows as a dash.
pub open spec fn updated_issue_text(i: UpdatedIssue) -> Seq<char> {
    "Updated "@ + i.identifier@ + " - "@ + i.title@ + " ["@ + (match i.state {
        Some(s) => s.name@,
        None => "\u{2014}"@,
    }) + "]\n"@
}

/// Reads the payload of the update mutation, as [`create_issue_report`]
/// does for the create mutation.
pub fn update_issue_report(success: bool, issue: &Option<UpdatedIssue>) -> (r: Result<
    Option<String>,
    Error,
>)
    ensures
        !success ==> (r matches Err(Error::GraphQL(m)) && m@ == "Failed to update issue"@),
        success ==> match issue {
            Some(i) => (r matches Ok(s) && s matches Some(t) && t@ == updated_issue_text(*i)),
            None => (r matches Ok(s) && s is None),
        },
{
    if !success {
        return Err(Error::GraphQL(String::from_str("Failed to update issue")));
    }
    match issue {
        Some(i) => {
            let mut t = String::from_str("Updated ");
            t.append(i.identifier.as_str());
            t.append(" - ");
            t.append(i.title.as_str());
            t.append(" [");
            match &i.state {
                Some(s) => t.append(s.name.as_str()),
                None => t.append("\u{2014}"),
            }
            t.append("]\n");
            Ok(Some(t))
        },
        None => Ok(None),
    }
}

} // verus!
