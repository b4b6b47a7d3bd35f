//! Project operations: list projects, get one, create one.

use vstd::prelude::*;
use crate::client::GraphQlRequest;
use crate::commands::eq_cond;
use crate::commands::eq_cond_json;
use crate::error::Error;
use crate::json::Json;
use crate::json::JsonVal;
use crate::json::ObjBuilder;
use crate::json::seq_arr_view;

verus! {

pub enum ProjectCommands {
    /// List projects.
    List(ListProjectArgs),
    /// Get project details.
    Get(GetProjectArgs),
    /// Create a new project.
    Create(CreateProjectArgs),
}

pub struct ListProjectArgs {
    /// Only projects reachable by the team with this key.
    pub team: Option<String>,
    /// How many projects to ask for at most.
    pub limit: u32,
}

pub struct GetProjectArgs {
    /// Project id or name.
    pub id: String,
}

pub struct CreateProjectArgs {
    pub name: String,
    pub team: String,
    pub description: Option<String>,
}

/// A project as shown in a listing.  Progress is held as a whole percentage
/// (0 to 100), already rounded from the fraction the service reports.
pub struct Project {
    pub id: String,
    pub name: String,
    pub state: String,
    pub progress_percent: u32,
    pub start_date: Option<String>,
    pub target_date: Option<String>,
}

/// Everything shown for a single project.
pub struct ProjectDetail {
    pub id: String,
    pub name: String,
    pub description: Option<String>,
    pub state: String,
    pub progress_percent: u32,
    pub start_date: Option<String>,
    pub target_date: Option<String>,
}

/// What a successful create mutation reports back.
pub struct CreatedProject {
    pub id: String,
    pub name: String,
    pub url: String,
}

pub open spec fn projects_query_text() -> Seq<char> {
    "query Projects($first: Int, $filter: ProjectFilter) { projects(first: $first, filter: $filter) { nodes { id name state progress startDate targetDate } } }"@
}

pub fn projects_query() -> (q: &'static str)
    ensures
        q@ == projects_query_text(),
{
    "query Projects($first: Int, $filter: ProjectFilter) { projects(first: $first, filter: $filter) { nodes { id name state progress startDate targetDate } } }"
}

pub open spec fn project_query_text() -> Seq<char> {
    "query Project($id: String!) { project(id: $id) { id name description state progress startDate targetDate } }"@
}

pub fn project_query() -> (q: &'static str)
    ensures
        q@ == project_query_text(),
{
    "query Project($id: String!) { project(id: $id) { id name description state progress startDate targetDate } }"
}

pub open spec fn create_project_mutation_text() -> Seq<char> {
    "mutation CreateProject($input: ProjectCreateInput!) { projectCreate(input: $input) { success project { id name url } } }"@
}

pub fn create_project_mutation() -> (q: &'static str)
    ensures
        q@ == create_project_mutation_text(),
{
    "mutation CreateProject($input: ProjectCreateInput!) { projectCreate(input: $input) { success project { id name url } } }"
}

/// The filter fields of a project listing: a team condition exactly when the
/// caller supplied one.
pub open spec fn project_filter_fields(args: ListProjectArgs) -> Seq<(Seq<char>, JsonVal)> {
    if args.team is Some {
        Seq::<(Seq<char>, JsonVal)>::empty().push(
            ("accessibleTeams"@, eq_cond("key"@, args.team->0@)),
        )
    } else {
        Seq::<(Seq<char>, JsonVal)>::empty()
    }
}

/// The model of the variables of a project listing.
pub open spec fn list_variables_val(args: ListProjectArgs) -> JsonVal {
    JsonVal::Obj(
        seq![
            ("first"@, JsonVal::Int(args.limit as int)),
            ("filter"@, JsonVal::Obj(project_filter_fields(args))),
        ],
    )
}

/// The request of the project list command.  With no team supplied the
/// filter has no fields at all.
pub fn list_request(args: &ListProjectArgs) -> (r: GraphQlRequest)
    ensures
        r.query@ == projects_query_text(),
        r.variables@ == list_variables_val(*args),
        args.team is None ==> project_filter_fields(*args) == Seq::<(Seq<char>, JsonVal)>::empty(),
{
    let mut f = ObjBuilder::new();
    if let Some(team) = &args.team {
        f.push_json("accessibleTeams", eq_cond_json("key", team.as_str()));
    }
    let mut b = ObjBuilder::new();
    b.push_int("first", args.limit as i64);
    b.push_json("filter", f.finish());
    let v = b.finish();
    proof {
        let fs = seq![
            ("first"@, JsonVal::Int(args.limit as int)),
            ("filter"@, JsonVal::Obj(project_filter_fields(*args))),
        ];
        assert(Seq::<(Seq<char>, JsonVal)>::empty().push(fs[0]).push(fs[1]) =~= fs);
    }
    GraphQlRequest { query: String::from_str(projects_query()), variables: v }
}

/// The model of the variables of a project fetch.
pub open spec fn get_variables_val(args: GetProjectArgs) -> JsonVal {
    JsonVal::Obj(seq![("id"@, JsonVal::Str(args.id@))])
}

/// The request of the project get command.
pub fn get_request(args: &GetProjectArgs) -> (r: GraphQlRequest)
    ensures
        r.query@ == project_query_text(),
        r.variables@ == get_variables_val(*args),
{
    let mut b = ObjBuilder::new();
    b.push_str("id", args.id.as_str());
    let v = b.finish();
    proof {
        let fs = seq![("id"@, JsonVal::Str(args.id@))];
        assert(Seq::<(Seq<char>, JsonVal)>::empty().push(fs[0]) =~= fs);
    }
    GraphQlRequest { query: String::from_str(project_query()), variables: v }
}

fn single_str_arr(value: &str) -> (j: Json)
    ensures
        j@ == JsonVal::Arr(seq![JsonVal::Str(value@)]),
{
    let mut items: Vec<Json> = Vec::new();
    items.push(Json::Str(value.to_owned()));
    proof {
        assert(items@.subrange(0, 0) =~= Seq::<Json>::empty());
        assert(seq_arr_view(Seq::<Json>::empty()) =~= Seq::<JsonVal>::empty());
        assert(seq_arr_view(items@) == seq_arr_view(items@.subrange(0, 0)).push(
            crate::json::json_view(items@[0]),
        ));
        assert(crate::json::json_view(items@[0]) == JsonVal::Str(value@));
        assert(seq_arr_view(items@) =~= seq![JsonVal::Str(value@)]);
    }
    Json::Arr(items)
}

/// The input fields of a project creation: the name and the team list
/// always, the description exactly when the caller supplied one.
pub open spec fn create_input_fields(args: CreateProjectArgs) -> Seq<(Seq<char>, JsonVal)> {
    let f0 = seq![
        ("name"@, JsonVal::Str(args.name@)),
        ("teamIds"@, JsonVal::Arr(seq![JsonVal::Str(args.team@)])),
    ];
    if args.description is Some {
        f0.push(("description"@, JsonVal::Str(args.description->0@)))
    } else {
        f0
    }
}

/// The model of the variables of a project creation.
pub open spec fn create_variables_val(args: CreateProjectArgs) -> JsonVal {
    JsonVal::Obj(seq![("input"@, JsonVal::Obj(create_input_fields(args)))])
}

/// The request of the project create command.
pub fn create_request(args: &CreateProjectArgs) -> (r: GraphQlRequest)
    ensures
        r.query@ == create_project_mutation_text(),
        r.variables@ == create_variables_val(*args),
{
    let mut input = ObjBuilder::new();
    input.push_str("name", args.name.as_str());
    input.push_json("teamIds", single_str_arr(args.team.as_str()));
    if let Some(desc) = &args.description {
        input.push_str("description", desc.as_str());
    }
    proof {
        let f0 = seq![
            ("name"@, JsonVal::Str(args.name@)),
            ("teamIds"@, JsonVal::Arr(seq![JsonVal::Str(args.team@)])),
        ];
        assert(Seq::<(Seq<char>, JsonVal)>::empty().push(f0[0]).push(f0[1]) =~= f0);
    }
    let mut b = ObjBuilder::new();
    b.push_json("input", input.finish());
    let v = b.finish();
    proof {
        let fs = seq![("input"@, JsonVal::Obj(create_input_fields(*args)))];
        assert(Seq::<(Seq<char>, JsonVal)>::empty().push(fs[0]) =~= fs);
    }
    GraphQlRequest { query: String::from_str(create_project_mutation()), variables: v }
}

/// The report of a successful project creation.
pub open spec fn created_project_text(p: CreatedProject) -> Seq<char> {
    "Created project: "@ + p.name@ + "\n"@ + p.url@ + "\n"@
}

/// Reads the payload of the project create mutation: a false success flag is
/// a failure even without a reported error.
pub fn create_project_report(success: bool, project: &Option<CreatedProject>) -> (r: Result<
    Option<String>,
    Error,
>)
    ensures
        !success ==> (r matches Err(Error::GraphQL(m)) && m@ == "Failed to create project"@),
        success ==> match project {
            Some(p) => (r matches Ok(s) && s matches Some(t) && t@ == created_project_text(*p)),
            None => (r matches Ok(s) && s is None),
        },
{
    if !success {
        return Err(Error::GraphQL(String::from_str("Failed to create project")));
    }
    match project {
        Some(p) => {
            let mut t = String::from_str("Created project: ");
            t.append(p.name.as_str());
            t.append("\n");
            t.append(p.url.as_str());
            t.append("\n");
            Ok(Some(t))
        },
        None => Ok(None),
    }
}

} // verus!
