//! Document operations: list documents, get one, create one.

use vstd::prelude::*;
use crate::client::GraphQlRequest;
use crate::commands::eq_cond;
use crate::commands::eq_cond_json;
use crate::error::Error;
use crate::json::JsonVal;
use crate::json::ObjBuilder;

verus! {

pub enum DocumentCommands {
    /// List documents.
    List(ListDocumentArgs),
    /// Get document details.
    Get(GetDocumentArgs),
    /// Create a new document.
    Create(CreateDocumentArgs),
}

pub struct ListDocumentArgs {
    /// Only documents of the project with this id.
    pub project: Option<String>,
    /// How many documents to ask for at most.
    pub limit: u32,
}

pub struct GetDocumentArgs {
    /// Document id.
    pub id: String,
}

pub struct CreateDocumentArgs {
    pub title: String,
    /// Project id to attach the document to.
    pub project: String,
    pub content: Option<String>,
}

/// A document as shown in a listing.
pub struct Document {
    pub id: String,
    pub title: String,
    pub updated_at: String,
}

/// Everything shown for a single document.
pub struct DocumentDetail {
    pub id: String,
    pub title: String,
    pub content: Option<String>,
    pub created_at: String,
    pub updated_at: String,
}

/// What a successful create mutation reports back.
pub struct CreatedDocument {
    pub id: String,
    pub title: String,
}

pub open spec fn documents_query_text() -> Seq<char> {
    "query Documents($first: Int, $filter: DocumentFilter) { documents(first: $first, filter: $filter) { nodes { id title updatedAt } } }"@
}

pub fn documents_query() -> (q: &'static str)
    ensures
        q@ == documents_query_text(),
{
    "query Documents($first: Int, $filter: DocumentFilter) { documents(first: $first, filter: $filter) { nodes { id title updatedAt } } }"
}

pub open spec fn document_query_text() -> Seq<char> {
    "query Document($id: String!) { document(id: $id) { id title content createdAt updatedAt } }"@
}

pub fn document_query() -> (q: &'static str)
    ensures
        q@ == document_query_text(),
{
    "query Document($id: String!) { document(id: $id) { id title content createdAt updatedAt } }"
}

pub open spec fn create_document_mutation_text() -> Seq<char> {
    "mutation CreateDocument($input: DocumentCreateInput!) { documentCreate(input: $input) { success document { id title } } }"@
}

pub fn create_document_mutation() -> (q: &'static str)
    ensures
        q@ == create_document_mutation_text(),
{
    "mutation CreateDocument($input: DocumentCreateInput!) { documentCreate(input: $input) { success document { id title } } }"
}

/// The filter fields of a document listing: a project condition exactly when
/// the caller supplied one.
pub open spec fn document_filter_fields(args: ListDocumentArgs) -> Seq<(Seq<char>, JsonVal)> {
    if args.project is Some {
        Seq::<(Seq<char>, JsonVal)>::empty().push(("project"@, eq_cond("id"@, args.project->0@)))
    } else {
        Seq::<(Seq<char>, JsonVal)>::empty()
    }
}

/// The model of the variables of a document listing.
pub open spec fn list_variables_val(args: ListDocumentArgs) -> JsonVal {
    JsonVal::Obj(
        seq![
            ("first"@, JsonVal::Int(args.limit as int)),
            ("filter"@, JsonVal::Obj(document_filter_fields(args))),
        ],
    )
}

/// The request of the document list command.  With no project supplied the
/// filter has no fields at all.
pub fn list_request(args: &ListDocumentArgs) -> (r: GraphQlRequest)
    ensures
        r.query@ == documents_query_text(),
        r.variables@ == list_variables_val(*args),
        args.project is None ==> document_filter_fields(*args) == Seq::<
            (Seq<char>, JsonVal),
        >::empty(),
{
    let mut f = ObjBuilder::new();
    if let Some(project) = &args.project {
        f.push_json("project", eq_cond_json("id", project.as_str()));
    }
    let mut b = ObjBuilder::new();
    b.push_int("first", args.limit as i64);
    b.push_json("filter", f.finish());
    let v = b.finish();
    proof {
        let fs = seq![
            ("first"@, JsonVal::Int(args.limit as int)),
            ("filter"@, JsonVal::Obj(document_filter_fields(*args))),
        ];
        assert(Seq::<(Seq<char>, JsonVal)>::empty().push(fs[0]).push(fs[1]) =~= fs);
    }
    GraphQlRequest { query: String::from_str(documents_query()), variables: v }
}

/// The model of the variables of a document fetch.
pub open spec fn get_variables_val(args: GetDocumentArgs) -> JsonVal {
    JsonVal::Obj(seq![("id"@, JsonVal::Str(args.id@))])
}

/// The request of the document get command.
pub fn get_request(args: &GetDocumentArgs) -> (r: GraphQlRequest)
    ensures
        r.query@ == document_query_text(),
        r.variables@ == get_variables_val(*args),
{
    let mut b = ObjBuilder::new();
    b.push_str("id", args.id.as_str());
    let v = b.finish();
    proof {
        let fs = seq![("id"@, JsonVal::Str(args.id@))];
        assert(Seq::<(Seq<char>, JsonVal)>::empty().push(fs[0]) =~= fs);
    }
    GraphQlRequest { query: String::from_str(document_query()), variables: v }
}

/// The input fields of a document creation: title and project always, the
/// content exactly when the caller supplied one.
pub open spec fn create_input_fields(args: CreateDocumentArgs) -> Seq<(Seq<char>, JsonVal)> {
    let f0 = seq![
        ("title"@, JsonVal::Str(args.title@)),
        ("projectId"@, JsonVal::Str(args.project@)),
    ];
    if args.content is Some {
        f0.push(("content"@, JsonVal::Str(args.content->0@)))
    } else {
        f0
    }
}

/// The model of the variables of a document creation.
pub open spec fn create_variables_val(args: CreateDocumentArgs) -> JsonVal {
    JsonVal::Obj(seq![("input"@, JsonVal::Obj(create_input_fields(args)))])
}

/// The request of the document create command.
pub fn create_request(args: &CreateDocumentArgs) -> (r: GraphQlRequest)
    ensures
        r.query@ == create_document_mutation_text(),
        r.variables@ == create_variables_val(*args),
{
    let mut input = ObjBuilder::new();
    input.push_str("title", args.title.as_str());
    input.push_str("projectId", args.project.as_str());
    if let Some(content) = &args.content {
        input.push_str("content", content.as_str());
    }
    proof {
        let f0 = seq![
            ("title"@, JsonVal::Str(args.title@)),
            ("projectId"@, JsonVal::Str(args.project@)),
        ];
        assert(Seq::<(Seq<char>, JsonVal)>::empty().push(f0[0]).push(f0[1]) =~= f0);
    }
    let mut b = ObjBuilder::new();
    b.push_json("input", input.finish());
    let v = b.finish();
    proof {
        let fs = seq![("input"@, JsonVal::Obj(create_input_fields(*args)))];
        assert(Seq::<(Seq<char>, JsonVal)>::empty().push(fs[0]) =~= fs);
    }
    GraphQlRequest { query: String::from_str(create_document_mutation()), variables: v }
}

/// The report of a successful document creation.
pub open spec fn created_document_text(d: CreatedDocument) -> Seq<char> {
    "Created document: "@ + d.title@ + "\nID: "@ + d.id@ + "\n"@
}

/// Reads the payload of the document create mutation: a false success flag
/// is a failure even without a reported error.
pub fn create_document_report(success: bool, document: &Option<CreatedDocument>) -> (r: Result<
    Option<String>,
    Error,
>)
    ensures
        !success ==> (r matches Err(Error::GraphQL(m)) && m@ == "Failed to create document"@),
        success ==> match document {
            Some(d) => (r matches Ok(s) && s matches Some(t) && t@ == created_document_text(*d)),
            None => (r matches Ok(s) && s is None),
        },
{
    if !success {
        return Err(Error::GraphQL(String::from_str("Failed to create document")));
    }
    match document {
        Some(d) => {
            let mut t = String::from_str("Created document: ");
            t.append(d.title.as_str());
            t.append("\nID: ");
            t.append(d.id.as_str());
            t.append("\n");
            Ok(Some(t))
        },
        None => Ok(None),
    }
}

} // verus!
