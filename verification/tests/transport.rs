use linear_cli::client::envelope_outcome;
use linear_cli::commands::comment::create_comment_report;
use linear_cli::commands::issue::create_issue_report;
use linear_cli::commands::issue::update_issue_report;
use linear_cli::commands::issue::CreatedIssue;
use linear_cli::commands::issue::IssueState;
use linear_cli::commands::issue::UpdatedIssue;
use linear_cli::client::retry_after_seconds;
use linear_cli::client::status_error;
use linear_cli::error::Error;
use linear_cli::text::parse_u64;

fn s(t: &str) -> String {
    String::from(t)
}

#[test]
fn non_empty_errors_fail_even_with_data() {
    let errors = Some(vec![s("boom"), s("bang")]);
    let with_data = envelope_outcome(true, &errors);
    assert_eq!(with_data, Err(Error::GraphQL(s("boom, bang"))));
    let without_data = envelope_outcome(false, &errors);
    assert_eq!(without_data, Err(Error::GraphQL(s("boom, bang"))));
}

#[test]
fn single_error_message_is_not_joined() {
    let errors = Some(vec![s("boom")]);
    assert_eq!(envelope_outcome(true, &errors), Err(Error::GraphQL(s("boom"))));
}

#[test]
fn empty_or_absent_errors_follow_the_data() {
    assert_eq!(envelope_outcome(true, &None), Ok(()));
    assert_eq!(envelope_outcome(true, &Some(vec![])), Ok(()));
    assert_eq!(
        envelope_outcome(false, &None),
        Err(Error::GraphQL(s("no data in response")))
    );
    assert_eq!(
        envelope_outcome(false, &Some(vec![])),
        Err(Error::GraphQL(s("no data in response")))
    );
}

#[test]
fn status_401_is_unauthorized() {
    assert_eq!(status_error(401, None), Some(Error::Unauthorized));
    assert_eq!(status_error(200, None), None);
    assert_eq!(status_error(500, Some("7")), None);
}

#[test]
fn status_429_reads_retry_after_header() {
    assert_eq!(status_error(429, Some("12")), Some(Error::RateLimited(12)));
    assert_eq!(status_error(429, None), Some(Error::RateLimited(60)));
    assert_eq!(status_error(429, Some("soon")), Some(Error::RateLimited(60)));
    assert_eq!(status_error(429, Some("")), Some(Error::RateLimited(60)));
}

#[test]
fn retry_after_parses_or_defaults() {
    assert_eq!(retry_after_seconds(Some("0")), 0);
    assert_eq!(retry_after_seconds(Some("+42")), 42);
    assert_eq!(retry_after_seconds(Some("18446744073709551615")), u64::MAX);
    assert_eq!(retry_after_seconds(Some("18446744073709551616")), 60);
    assert_eq!(retry_after_seconds(Some("1.5")), 60);
    assert_eq!(retry_after_seconds(Some("-3")), 60);
    assert_eq!(retry_after_seconds(None), 60);
}

#[test]
fn parse_u64_agrees_with_std() {
    for case in ["0", "7", "+7", "007", "18446744073709551615", "18446744073709551616", "", "+", "4x", " 4", "4 "] {
        assert_eq!(parse_u64(case), case.parse::<u64>().ok(), "case: {case}");
    }
}

#[test]
fn exit_codes_and_messages() {
    assert_eq!(Error::MissingApiKey.exit_code(), 2);
    assert_eq!(Error::Unauthorized.exit_code(), 2);
    assert_eq!(Error::NotFound(s("x")).exit_code(), 3);
    assert_eq!(Error::RateLimited(9).exit_code(), 4);
    assert_eq!(Error::GraphQL(s("x")).exit_code(), 1);
    assert_eq!(Error::Network(s("x")).exit_code(), 1);
    assert_eq!(
        Error::MissingApiKey.message(),
        "LINEAR_API_KEY environment variable not set"
    );
    assert_eq!(
        Error::Unauthorized.message(),
        "Authentication failed: invalid API key"
    );
    assert_eq!(Error::NotFound(s("ENG-1")).message(), "Not found: ENG-1");
    assert_eq!(
        Error::RateLimited(90).message(),
        "Rate limited, retry after 90 seconds"
    );
    assert_eq!(Error::GraphQL(s("boom")).message(), "GraphQL error: boom");
    assert_eq!(Error::Network(s("dns")).message(), "Network error: dns");
}

#[test]
fn mutation_reports_respect_success_flag() {
    assert_eq!(create_comment_report(true), Ok(s("Comment added.\n")));
    assert_eq!(
        create_comment_report(false),
        Err(Error::GraphQL(s("Failed to create comment")))
    );

    let created = CreatedIssue {
        identifier: s("ENG-7"),
        title: s("Fix"),
        url: s("https://example.test/ENG-7"),
    };
    assert_eq!(
        create_issue_report(true, &Some(created)),
        Ok(Some(s("Created ENG-7 - Fix\nhttps://example.test/ENG-7\n")))
    );
    assert_eq!(create_issue_report(true, &None), Ok(None));
    assert_eq!(
        create_issue_report(false, &None),
        Err(Error::GraphQL(s("Failed to create issue")))
    );

    let updated = UpdatedIssue {
        identifier: s("ENG-7"),
        title: s("Fix"),
        state: Some(IssueState { name: s("Done") }),
    };
    assert_eq!(
        update_issue_report(true, &Some(updated)),
        Ok(Some(s("Updated ENG-7 - Fix [Done]\n")))
    );
    let updated_no_state = UpdatedIssue { identifier: s("ENG-7"), title: s("Fix"), state: None };
    assert_eq!(
        update_issue_report(true, &Some(updated_no_state)),
        Ok(Some(s("Updated ENG-7 - Fix [\u{2014}]\n")))
    );
    assert_eq!(
        update_issue_report(false, &None),
        Err(Error::GraphQL(s("Failed to update issue")))
    );
}
