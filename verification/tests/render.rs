use linear_cli::commands::comment::Comment;
use linear_cli::commands::comment::CommentUser;
use linear_cli::commands::cycle::Cycle;
use linear_cli::commands::cycle::CycleDetail;
use linear_cli::commands::document::Document;
use linear_cli::commands::document::DocumentDetail;
use linear_cli::commands::issue::Assignee;
use linear_cli::commands::issue::Issue;
use linear_cli::commands::issue::IssueDetail;
use linear_cli::commands::issue::IssueState;
use linear_cli::commands::issue::Team as IssueTeam;
use linear_cli::commands::label::Label;
use linear_cli::commands::project::Project;
use linear_cli::commands::project::ProjectDetail;
use linear_cli::commands::search::SearchResult;
use linear_cli::commands::search::SearchState;
use linear_cli::commands::team::Team;
use linear_cli::commands::workflow::WorkflowState;
use linear_cli::error::Error;
use linear_cli::output::priority_label;
use linear_cli::output::render_comments;
use linear_cli::output::render_cycle_detail;
use linear_cli::output::render_cycles;
use linear_cli::output::render_document_detail;
use linear_cli::output::render_documents;
use linear_cli::output::render_error;
use linear_cli::output::render_issue_detail;
use linear_cli::output::render_issues;
use linear_cli::output::render_labels;
use linear_cli::output::render_project_detail;
use linear_cli::output::render_projects;
use linear_cli::output::render_search_results;
use linear_cli::output::render_team_detail;
use linear_cli::output::render_teams;
use linear_cli::output::render_user;
use linear_cli::output::render_workflow_states;
use linear_cli::output::truncate;

fn s(t: &str) -> String {
    String::from(t)
}

#[test]
fn priority_labels_map_exactly() {
    assert_eq!(priority_label(0), "None");
    assert_eq!(priority_label(1), "Urgent");
    assert_eq!(priority_label(2), "High");
    assert_eq!(priority_label(3), "Normal");
    assert_eq!(priority_label(4), "Low");
    assert_eq!(priority_label(9), "\u{2014}");
    assert_eq!(priority_label(-1), "\u{2014}");
}

#[test]
fn truncation_respects_the_budget() {
    assert_eq!(truncate("abcdef", 3), "ab\u{2026}");
    assert_eq!(truncate("abc", 3), "abc");
    assert_eq!(truncate("ab", 3), "ab");
    assert_eq!(truncate("", 3), "");
    assert_eq!(truncate("ab", 0), "\u{2026}");
    assert_eq!(truncate("ab", 1), "\u{2026}");
    let long = "x".repeat(60);
    let cut = truncate(&long, 40);
    assert_eq!(cut.chars().count(), 40);
    assert!(cut.ends_with('\u{2026}'));
}

#[test]
fn user_rendering_plain_and_colored() {
    assert_eq!(
        render_user("Ada", "ada@example.test", "u-1", false),
        "Name: Ada\nEmail: ada@example.test\nID: u-1\n"
    );
    assert_eq!(
        render_user("Ada", "ada@example.test", "u-1", true),
        "\u{1b}[1mName\u{1b}[0m: Ada\n\u{1b}[1mEmail\u{1b}[0m: ada@example.test\n\u{1b}[1;2mID\u{1b}[0m: \u{1b}[2mu-1\u{1b}[0m\n"
    );
}

#[test]
fn error_rendering_plain_and_colored() {
    assert_eq!(
        render_error(&Error::RateLimited(30), false),
        "Error: Rate limited, retry after 30 seconds\n"
    );
    assert_eq!(
        render_error(&Error::Unauthorized, true),
        "\u{1b}[31;1mError\u{1b}[0m: Authentication failed: invalid API key\n"
    );
}

#[test]
fn issue_table_holds_rows_and_truncated_titles() {
    assert_eq!(render_issues(&vec![]), "No issues found.\n");
    let issues = vec![
        Issue {
            identifier: s("ENG-1"),
            title: s("Short title"),
            state: Some(IssueState { name: s("Todo") }),
            assignee: None,
            priority: 1,
        },
        Issue {
            identifier: s("ENG-2"),
            title: "y".repeat(50),
            state: None,
            assignee: Some(Assignee { name: s("Ada") }),
            priority: 9,
        },
    ];
    let table = render_issues(&issues);
    assert!(table.contains("ID"));
    assert!(table.contains("Title"));
    assert!(table.contains("Priority"));
    assert!(table.contains("ENG-1"));
    assert!(table.contains("Urgent"));
    assert!(table.contains("Ada"));
    assert!(table.contains('\u{2026}'));
    assert!(table.contains('+') || table.contains('|'));
    assert!(!table.contains(&"y".repeat(41)));
    assert!(table.ends_with('\n'));
}

#[test]
fn issue_detail_rendering() {
    let d = IssueDetail {
        identifier: s("ENG-1"),
        title: s("Fix the bug"),
        description: Some(s("It crashes.")),
        state: Some(IssueState { name: s("In Progress") }),
        assignee: None,
        priority: 2,
        created_at: s("2024-01-02T10:00:00Z"),
        updated_at: s("2024-02-03T11:00:00Z"),
        team: IssueTeam { key: s("ENG"), name: s("Engineering") },
    };
    assert_eq!(
        render_issue_detail(&d, false),
        "ENG-1 Fix the bug\n\nTeam: Engineering (ENG)\nState: In Progress\nAssignee: \u{2014}\nPriority: High\nCreated: 2024-01-02\nUpdated: 2024-02-03\n\nDescription:\nIt crashes.\n"
    );
    let no_desc = IssueDetail { description: Some(s("")), ..d };
    let text = render_issue_detail(&no_desc, false);
    assert!(!text.contains("Description:"));
}

#[test]
fn team_rendering() {
    assert_eq!(render_teams(&vec![], false), "No teams found.\n");
    let teams = vec![
        Team { id: s("t1"), key: s("ENG"), name: s("Engineering"), description: None },
        Team { id: s("t2"), key: s("OPS"), name: s("Operations"), description: Some(s("")) },
    ];
    assert_eq!(render_teams(&teams, false), "ENG - Engineering\nOPS - Operations\n");
    let one = vec![Team { id: s("t1"), key: s("ENG"), name: s("Engineering"), description: None }];
    assert_eq!(render_teams(&one, true), "\u{1b}[36;1mENG\u{1b}[0m - Engineering\n");
    let detailed = Team {
        id: s("t1"),
        key: s("ENG"),
        name: s("Engineering"),
        description: Some(s("builds things")),
    };
    assert_eq!(
        render_team_detail(&detailed, false),
        "ENG Engineering\n\nbuilds things\n"
    );
    let empty_desc = Team {
        id: s("t1"),
        key: s("ENG"),
        name: s("Engineering"),
        description: Some(s("")),
    };
    assert_eq!(render_team_detail(&empty_desc, false), "ENG Engineering\n");
}

#[test]
fn project_rendering() {
    assert_eq!(render_projects(&vec![], false), "No projects found.\n");
    let p = Project {
        id: s("p1"),
        name: s("Apollo"),
        state: s("started"),
        progress_percent: 42,
        start_date: None,
        target_date: None,
    };
    assert_eq!(render_projects(&vec![p], false), "Apollo [started] 42%\n");
    let d = ProjectDetail {
        id: s("p1"),
        name: s("Apollo"),
        description: Some(s("to the moon")),
        state: s("started"),
        progress_percent: 100,
        start_date: Some(s("2024-01-01")),
        target_date: Some(s("2024-06-30T00:00:00Z")),
    };
    assert_eq!(
        render_project_detail(&d, false),
        "Apollo\n\nState: started\nProgress: 100%\nStart: 2024-01-01\nTarget: 2024-06-30\n\nto the moon\n"
    );
}

#[test]
fn cycle_rendering() {
    assert_eq!(render_cycles(&vec![], false), "No cycles found.\n");
    let c = Cycle {
        id: s("c1"),
        number: 4,
        name: Some(s("Sprint")),
        starts_at: s("2024-03-01T00:00:00Z"),
        ends_at: s("2024-03-14T00:00:00Z"),
        progress_percent: 50,
    };
    assert_eq!(
        render_cycles(&vec![c], false),
        "Cycle 4 Sprint 2024-03-01 \u{2192} 2024-03-14 50%\n"
    );
    let d = CycleDetail {
        id: s("c1"),
        number: 4,
        name: None,
        starts_at: s("2024-03-01T00:00:00Z"),
        ends_at: s("2024-03-14T00:00:00Z"),
        progress_percent: 7,
        description: Some(s("mid-quarter")),
    };
    assert_eq!(
        render_cycle_detail(&d, false),
        "Cycle 4 \n\nPeriod: 2024-03-01 \u{2192} 2024-03-14\nProgress: 7%\n\nmid-quarter\n"
    );
}

#[test]
fn label_rendering() {
    assert_eq!(render_labels(&vec![]), "No labels found.\n");
    let labels = vec![
        Label { id: s("l1"), name: s("bug"), color: s("#ff0000") },
        Label { id: s("l2"), name: s("chore"), color: s("#00ff00") },
    ];
    assert_eq!(render_labels(&labels), "\u{25cf} bug\n\u{25cf} chore\n");
}

#[test]
fn comment_and_document_rendering() {
    assert_eq!(render_comments(&vec![], false), "No comments found.\n");
    let comments = vec![
        Comment {
            id: s("c1"),
            body: s("Looks good."),
            created_at: s("2024-05-06T07:08:09Z"),
            user: Some(CommentUser { name: s("Ada") }),
        },
        Comment {
            id: s("c2"),
            body: s("Hmm."),
            created_at: s("2024-05-07T07:08:09Z"),
            user: None,
        },
    ];
    assert_eq!(
        render_comments(&comments, false),
        "Ada 2024-05-06\nLooks good.\n\u{2014} 2024-05-07\nHmm.\n"
    );
    assert_eq!(render_documents(&vec![], false), "No documents found.\n");
    let docs = vec![Document { id: s("d1"), title: s("Plan"), updated_at: s("2024-04-05T00:00:00Z") }];
    assert_eq!(render_documents(&docs, false), "Plan 2024-04-05\n");
    let detail = DocumentDetail {
        id: s("d1"),
        title: s("Plan"),
        content: Some(s("Step one.")),
        created_at: s("2024-04-01T00:00:00Z"),
        updated_at: s("2024-04-05T00:00:00Z"),
    };
    assert_eq!(
        render_document_detail(&detail, false),
        "Plan\n\nCreated: 2024-04-01\nUpdated: 2024-04-05\n\nStep one.\n"
    );
}

#[test]
fn search_rendering() {
    assert_eq!(render_search_results(&vec![], false), "No results found.\n");
    let results = vec![
        SearchResult {
            id: s("i1"),
            identifier: s("ENG-9"),
            title: s("Crash on save"),
            state: Some(SearchState { name: s("Todo") }),
        },
        SearchResult { id: s("i2"), identifier: s("OPS-1"), title: s("Disk"), state: None },
    ];
    assert_eq!(
        render_search_results(&results, false),
        "ENG-9 Crash on save [Todo]\nOPS-1 Disk [\u{2014}]\n"
    );
}

#[test]
fn workflow_rendering_groups_and_omits_unknown_types() {
    assert_eq!(render_workflow_states(&vec![], false), "No workflow states found.\n");
    let st = |name: &str, ty: &str, pos: i64| WorkflowState {
        id: s(name),
        name: s(name),
        state_type: s(ty),
        color: s("#888888"),
        position: pos,
    };
    let states = vec![
        st("Done", "completed", 5),
        st("Icebox", "backlog", 0),
        st("Doing", "started", 3),
        st("Todo", "unstarted", 1),
        st("Weird", "mystery", 2),
    ];
    assert_eq!(
        render_workflow_states(&states, false),
        "BACKLOG:\n  Icebox\nUNSTARTED:\n  Todo\nSTARTED:\n  Doing\nCOMPLETED:\n  Done\n"
    );
}

#[test]
fn workflow_sorting_orders_by_position() {
    let st = |name: &str, pos: i64| WorkflowState {
        id: s(name),
        name: s(name),
        state_type: s("started"),
        color: s("#888888"),
        position: pos,
    };
    let sorted = linear_cli::commands::workflow::sort_states(vec![
        st("c", 30),
        st("a", -10),
        st("b", 20),
    ]);
    let names: Vec<String> = sorted.into_iter().map(|w| w.name).collect();
    assert_eq!(names, vec![s("a"), s("b"), s("c")]);
}
