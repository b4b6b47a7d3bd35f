//! Comment operations: list the comments of an issue, add one.

use vstd::prelude::*;
use crate::client::GraphQlRequest;
use crate::error::Error;
use crate::json::JsonVal;
use crate::json::ObjBuilder;

verus! {

pub enum CommentCommands {
    /// List comments on an issue.
    List(ListCommentArgs),
    /// Create a comment on an issue.
    Create(CreateCommentArgs),
}

pub struct ListCommentArgs {
    /// Issue identifier, e.g. ENG-123.
    pub issue: String,
}

pub struct CreateCommentArgs {
    /// Issue identifier, e.g. ENG-123.
    pub issue: String,
    /// Comment body.
    pub body: String,
}

/// A comment as the service reports it.
pub struct Comment {
    pub id: String,
    pub body: String,
    pub created_at: String,
    pub user: Option<CommentUser>,
}

pub struct CommentUser {
    pub name: String,
}

pub open spec fn comments_query_text() -> Seq<char> {
    "query IssueComments($id: String!) { issue(id: $id) { comments { nodes { id body createdAt user { name } } } } }"@
}

pub fn comments_query() -> (q: &'static str)
    ensures
        q@ == comments_query_text(),
{
    "query IssueComments($id: String!) { issue(id: $id) { comments { nodes { id body createdAt user { name } } } } }"
}

pub open spec fn create_comment_mutation_text() -> Seq<char> {
    "mutation CreateComment($input: CommentCreateInput!) { commentCreate(input: $input) { success } }"@
}

pub fn create_comment_mutation() -> (q: &'static str)
    ensures
        q@ == create_comment_mutation_text(),
{
    "mutation CreateComment($input: CommentCreateInput!) { commentCreate(input: $input) { success } }"
}

/// The model of the variables of a comment listing.
pub open spec fn list_variables_val(args: ListCommentArgs) -> JsonVal {
    JsonVal::Obj(seq![("id"@, JsonVal::Str(args.issue@))])
}

/// The request of the comment list command.
pub fn list_request(args: &ListCommentArgs) -> (r: GraphQlRequest)
    ensures
        r.query@ == comments_query_text(),
        r.variables@ == list_variables_val(*args),
{
    let mut b = ObjBuilder::new();
    b.push_str("id", args.issue.as_str());
    let v = b.finish();
    proof {
        let fs = seq![("id"@, JsonVal::Str(args.issue@))];
        assert(Seq::<(Seq<char>, JsonVal)>::empty().push(fs[0]) =~= fs);
    }
    GraphQlRequest { query: String::from_str(comments_query()), variables: v }
}

/// The model of the variables of a comment creation: both fields are
/// required, so both are always present.
pub open spec fn create_variables_val(args: CreateCommentArgs) -> JsonVal {
    JsonVal::Obj(
        seq![
            (
                "input"@,
                JsonVal::Obj(
                    seq![
                        ("issueId"@, JsonVal::Str(args.issue@)),
                        ("body"@, JsonVal::Str(args.body@)),
                    ],
                ),
            ),
        ],
    )
}

/// The request of the comment create command.
pub fn create_request(args: &CreateCommentArgs) -> (r: GraphQlRequest)
    ensures
        r.query@ == create_comment_mutation_text(),
        r.variables@ == create_variables_val(*args),
{
    let mut input = ObjBuilder::new();
    input.push_str("issueId", args.issue.as_str());
    input.push_str("body", args.body.as_str());
    proof {
        let is = seq![("issueId"@, JsonVal::Str(args.issue@)), ("body"@, JsonVal::Str(args.body@))];
        assert(Seq::<(Seq<char>, JsonVal)>::empty().push(is[0]).push(is[1]) =~= is);
    }
    let mut b = ObjBuilder::new();
    b.push_json("input", input.finish());
    let v = b.finish();
    proof {
        let inner = seq![
            ("issueId"@, JsonVal::Str(args.issue@)),
            ("body"@, JsonVal::Str(args.body@)),
        ];
        let fs = seq![("input"@, JsonVal::Obj(inner))];
        assert(Seq::<(Seq<char>, JsonVal)>::empty().push(fs[0]) =~= fs);
    }
    GraphQlRequest { query: String::from_str(create_comment_mutation()), variables: v }
}

/// Reads the payload of the comment create mutation: a false success flag is
/// a failure even without a reported error.
pub fn create_comment_report(success: bool) -> (r: Result<String, Error>)
    ensures
        success ==> (r matches Ok(s) && s@ == "Comment added.\n"@),
        !success ==> (r matches Err(Error::GraphQL(m)) && m@ == "Failed to create comment"@),
{
    if success {
        Ok(String::from_str("Comment added.\n"))
    } else {
        Err(Error::GraphQL(String::from_str("Failed to create comment")))
    }
}

} // verus!
