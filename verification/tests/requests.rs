use linear_cli::client::request_body;
use linear_cli::commands::comment;
use linear_cli::commands::cycle;
use linear_cli::commands::document;
use linear_cli::commands::issue;
use linear_cli::commands::label;
use linear_cli::commands::project;
use linear_cli::commands::search;
use linear_cli::commands::team;
use linear_cli::commands::user;
use linear_cli::commands::workflow;
use linear_cli::json::Json;

fn s(t: &str) -> String {
    String::from(t)
}

#[test]
fn issue_filter_without_flags_is_empty() {
    let args = issue::ListArgs { team: None, state: None, assignee: None, limit: 25 };
    let filter = issue::build_filter(&args);
    assert_eq!(filter.to_text(), "{}");
    let req = issue::list_request(&args);
    assert_eq!(req.variables.to_text(), "{\"first\":25,\"filter\":{}}");
}

#[test]
fn issue_filter_with_team_and_state() {
    let args = issue::ListArgs {
        team: Some(s("ENG")),
        state: Some(s("In Progress")),
        assignee: None,
        limit: 10,
    };
    let filter = issue::build_filter(&args);
    assert_eq!(
        filter.to_text(),
        "{\"team\":{\"key\":{\"eq\":\"ENG\"}},\"state\":{\"name\":{\"eq\":\"In Progress\"}}}"
    );
}

#[test]
fn issue_filter_assignee_me_and_other() {
    let me = issue::ListArgs { team: None, state: None, assignee: Some(s("me")), limit: 25 };
    assert_eq!(
        issue::build_filter(&me).to_text(),
        "{\"assignee\":{\"isMe\":{\"eq\":true}}}"
    );
    let other = issue::ListArgs { team: None, state: None, assignee: Some(s("Ada")), limit: 25 };
    assert_eq!(
        issue::build_filter(&other).to_text(),
        "{\"assignee\":{\"name\":{\"contains\":\"Ada\"}}}"
    );
}

#[test]
fn issue_create_includes_only_supplied_fields() {
    let bare = issue::CreateArgs {
        title: s("Fix it"),
        team: s("ENG"),
        description: None,
        priority: None,
    };
    let req = issue::create_request(&bare);
    assert_eq!(
        req.variables.to_text(),
        "{\"input\":{\"title\":\"Fix it\",\"teamId\":\"ENG\"}}"
    );
    let full = issue::CreateArgs {
        title: s("Fix it"),
        team: s("ENG"),
        description: Some(s("do the thing")),
        priority: Some(2),
    };
    let req = issue::create_request(&full);
    assert_eq!(
        req.variables.to_text(),
        "{\"input\":{\"title\":\"Fix it\",\"teamId\":\"ENG\",\"description\":\"do the thing\",\"priority\":2}}"
    );
}

#[test]
fn issue_update_without_fields_short_circuits() {
    let args = issue::UpdateArgs { id: s("ENG-1"), title: None, state: None, priority: None };
    assert!(issue::update_request(&args).is_none());
    assert_eq!(
        issue::no_updates_message(),
        "No updates specified. Use --title, --state, or --priority.\n"
    );
}

#[test]
fn issue_update_with_one_field_sends_only_it() {
    let args = issue::UpdateArgs {
        id: s("ENG-1"),
        title: Some(s("New title")),
        state: None,
        priority: None,
    };
    let req = issue::update_request(&args).unwrap();
    assert_eq!(
        req.variables.to_text(),
        "{\"id\":\"ENG-1\",\"input\":{\"title\":\"New title\"}}"
    );
    let args = issue::UpdateArgs {
        id: s("ENG-1"),
        title: None,
        state: None,
        priority: Some(0),
    };
    let req = issue::update_request(&args).unwrap();
    assert_eq!(
        req.variables.to_text(),
        "{\"id\":\"ENG-1\",\"input\":{\"priority\":0}}"
    );
}

#[test]
fn cycle_list_filter_only_when_team_given() {
    let bare = cycle::ListCycleArgs { team: None, limit: 10 };
    assert_eq!(
        cycle::list_request(&bare).variables.to_text(),
        "{\"first\":10,\"filter\":{}}"
    );
    let with_team = cycle::ListCycleArgs { team: Some(s("ENG")), limit: 10 };
    assert_eq!(
        cycle::list_request(&with_team).variables.to_text(),
        "{\"first\":10,\"filter\":{\"team\":{\"key\":{\"eq\":\"ENG\"}}}}"
    );
}

#[test]
fn label_list_filter_only_when_team_given() {
    let bare = label::ListLabelArgs { team: None };
    assert_eq!(label::list_request(&bare).variables.to_text(), "{\"filter\":{}}");
    let with_team = label::ListLabelArgs { team: Some(s("OPS")) };
    assert_eq!(
        label::list_request(&with_team).variables.to_text(),
        "{\"filter\":{\"team\":{\"key\":{\"eq\":\"OPS\"}}}}"
    );
}

#[test]
fn document_requests() {
    let bare = document::ListDocumentArgs { project: None, limit: 25 };
    assert_eq!(
        document::list_request(&bare).variables.to_text(),
        "{\"first\":25,\"filter\":{}}"
    );
    let with_project = document::ListDocumentArgs { project: Some(s("p-1")), limit: 25 };
    assert_eq!(
        document::list_request(&with_project).variables.to_text(),
        "{\"first\":25,\"filter\":{\"project\":{\"id\":{\"eq\":\"p-1\"}}}}"
    );
    let get = document::GetDocumentArgs { id: s("d-9") };
    assert_eq!(document::get_request(&get).variables.to_text(), "{\"id\":\"d-9\"}");
    let create = document::CreateDocumentArgs {
        title: s("Notes"),
        project: s("p-1"),
        content: None,
    };
    assert_eq!(
        document::create_request(&create).variables.to_text(),
        "{\"input\":{\"title\":\"Notes\",\"projectId\":\"p-1\"}}"
    );
}

#[test]
fn project_requests() {
    let with_team = project::ListProjectArgs { team: Some(s("ENG")), limit: 25 };
    assert_eq!(
        project::list_request(&with_team).variables.to_text(),
        "{\"first\":25,\"filter\":{\"accessibleTeams\":{\"key\":{\"eq\":\"ENG\"}}}}"
    );
    let create = project::CreateProjectArgs {
        name: s("Apollo"),
        team: s("ENG"),
        description: Some(s("moon")),
    };
    assert_eq!(
        project::create_request(&create).variables.to_text(),
        "{\"input\":{\"name\":\"Apollo\",\"teamIds\":[\"ENG\"],\"description\":\"moon\"}}"
    );
}

#[test]
fn team_comment_user_search_workflow_requests() {
    assert_eq!(team::list_request().variables.to_text(), "{}");
    let get = team::GetTeamArgs { key: s("ENG") };
    assert_eq!(team::get_request(&get).variables.to_text(), "{\"id\":\"ENG\"}");
    let list = comment::ListCommentArgs { issue: s("ENG-3") };
    assert_eq!(comment::list_request(&list).variables.to_text(), "{\"id\":\"ENG-3\"}");
    let create = comment::CreateCommentArgs { issue: s("ENG-3"), body: s("hi there") };
    assert_eq!(
        comment::create_request(&create).variables.to_text(),
        "{\"input\":{\"issueId\":\"ENG-3\",\"body\":\"hi there\"}}"
    );
    assert_eq!(user::me_request().variables.to_text(), "{}");
    let sr = search::SearchArgs { query: s("crash"), limit: 10 };
    assert_eq!(
        search::search_request(&sr).variables.to_text(),
        "{\"query\":\"crash\",\"first\":10}"
    );
    let wf = workflow::ListWorkflowArgs { team: s("ENG") };
    assert_eq!(
        workflow::list_request(&wf).variables.to_text(),
        "{\"teamId\":\"ENG\"}"
    );
}

#[test]
fn json_encoding_escapes_and_numbers() {
    let v = Json::Str(s("a\"b\\c\nd\t"));
    assert_eq!(v.to_text(), "\"a\\\"b\\\\c\\u000ad\\u0009\"");
    assert_eq!(Json::Int(-42).to_text(), "-42");
    assert_eq!(Json::Int(i64::MIN).to_text(), "-9223372036854775808");
    assert_eq!(Json::Bool(true).to_text(), "true");
    assert_eq!(Json::Bool(false).to_text(), "false");
    let arr = Json::Arr(vec![Json::Int(1), Json::Str(s("x")), Json::Bool(false)]);
    assert_eq!(arr.to_text(), "[1,\"x\",false]");
    let obj = Json::Obj(vec![(s("a"), Json::Int(0)), (s("b"), Json::Arr(vec![]))]);
    assert_eq!(obj.to_text(), "{\"a\":0,\"b\":[]}");
}

#[test]
fn whole_request_body_for_the_user_command() {
    let req = user::me_request();
    assert_eq!(
        req.body(),
        format!("{{\"query\":\"{}\",\"variables\":{{}}}}", "query Viewer { viewer { id name email } }")
    );
}

#[test]
fn request_body_wraps_query_and_variables() {
    let body = request_body("query Q { x }", &Json::Obj(vec![(s("id"), Json::Str(s("A-1")))]));
    assert_eq!(
        body,
        "{\"query\":\"query Q { x }\",\"variables\":{\"id\":\"A-1\"}}"
    );
    let parsed: serde_json::Value = serde_json::from_str(&body).unwrap();
    assert_eq!(parsed["query"], "query Q { x }");
    assert_eq!(parsed["variables"]["id"], "A-1");
}
