use judge_core::classify::parse_judge_result;
use judge_core::lifecycle::{testcase_rows, SubmissionDetailRow};
use judge_core::Status;

fn fresh_submission() -> SubmissionDetailRow {
    SubmissionDetailRow::new_submission(
        42,
        1001,
        "alice".to_string(),
        "cpp".to_string(),
        "2025-01-01T10:00:00Z".to_string(),
    )
}

#[test]
fn a_new_submission_is_pending_and_unjudged() {
    let s = fresh_submission();
    assert_eq!(s.status, Status::Pending);
    assert!(s.judged_at.is_none());
    assert!(s.score.is_none());
    assert_eq!(s.total_testcases, 0);
    assert_eq!(s.passed_testcases, 0);
}

#[test]
fn accepted_verdict_terminates_the_submission() {
    let mut s = fresh_submission();
    let verdict = parse_judge_result("ACCEPTED", "", true);
    s.apply_verdict(&verdict, "2025-01-01T10:00:31Z".to_string());
    assert_eq!(s.status, Status::Accepted);
    assert_eq!(s.score, Some(100));
    assert_eq!(s.total_testcases, 1);
    assert_eq!(s.passed_testcases, 1);
    assert_eq!(s.judged_at.as_deref(), Some("2025-01-01T10:00:31Z"));
    assert!(s.status.is_terminal());
}

#[test]
fn wrong_answer_verdict_keeps_the_diagnostics() {
    let mut s = fresh_submission();
    let verdict = parse_judge_result("WRONG_ANSWER", "", true);
    s.apply_verdict(&verdict, "2025-01-01T10:00:31Z".to_string());
    assert_eq!(s.status, Status::WrongAnswer);
    assert_eq!(s.score, Some(0));
    assert_eq!(s.passed_testcases, 0);
    assert!(s.judged_at.is_some());
}

#[test]
fn compile_error_verdict_gives_one_error_row_and_no_testcases() {
    let mut s = fresh_submission();
    let verdict = parse_judge_result("", "COMPILATION_ERROR: bad token", true);
    let tc_rows = testcase_rows(&verdict);
    assert_eq!(tc_rows.len(), 0);
    let error_rows = verdict.compile_errors.as_ref().expect("rows");
    assert_eq!(error_rows.len(), 1);
    assert_eq!(error_rows[0].error_message, "COMPILATION_ERROR: bad token");
    s.apply_verdict(&verdict, "2025-01-01T10:00:31Z".to_string());
    assert_eq!(s.status, Status::CompilationError);
    assert_eq!(s.compile_message.as_deref(), Some("COMPILATION_ERROR: bad token"));
    assert_eq!(s.total_testcases, 0);
    assert!(s.judged_at.is_some());
}

#[test]
fn timeout_verdict_populates_the_error_type() {
    let mut s = fresh_submission();
    let verdict = parse_judge_result("whatever", "streams", false);
    assert_eq!(testcase_rows(&verdict).len(), 0);
    s.apply_verdict(&verdict, "2025-01-01T10:00:31Z".to_string());
    assert_eq!(s.status, Status::TimeLimitExceeded);
    assert_eq!(s.score, Some(0));
    assert_eq!(s.runtime_error_type.as_deref(), Some("TIME_LIMIT_EXCEEDED"));
    assert!(s.judged_at.is_some());
}

#[test]
fn infrastructure_failure_ends_as_system_error() {
    let mut s = fresh_submission();
    s.apply_system_error("2025-01-01T10:00:31Z".to_string());
    assert_eq!(s.status, Status::SystemError);
    assert!(s.judged_at.is_some());
    assert!(s.score.is_none());
    assert_eq!(s.total_testcases, 0);
}

#[test]
fn testcase_rows_copy_the_verdict_entries() {
    let verdict = parse_judge_result("ACCEPTED", "", true);
    let rows = testcase_rows(&verdict);
    assert_eq!(rows.len(), 1);
    assert_eq!(rows[0].testcase_number, 1);
    assert_eq!(rows[0].status, Status::Accepted);
    assert_eq!(rows[0].execution_time, Some(100));
    assert_eq!(rows[0].memory_usage, Some(1024));
    assert!(rows[0].error_message.is_none());

    let verdict = parse_judge_result("WRONG_ANSWER", "", true);
    let rows = testcase_rows(&verdict);
    assert_eq!(rows.len(), 1);
    assert_eq!(rows[0].status, Status::WrongAnswer);
    assert!(rows[0].error_message.is_some());
}

#[test]
fn status_names_round_the_enum() {
    assert_eq!(Status::Pending.name(), "PENDING");
    assert_eq!(Status::Judging.name(), "JUDGING");
    assert_eq!(Status::Accepted.name(), "ACCEPTED");
    assert_eq!(Status::WrongAnswer.name(), "WRONG_ANSWER");
    assert_eq!(Status::CompilationError.name(), "COMPILATION_ERROR");
    assert_eq!(Status::RuntimeError.name(), "RUNTIME_ERROR");
    assert_eq!(Status::TimeLimitExceeded.name(), "TIME_LIMIT_EXCEEDED");
    assert_eq!(Status::SystemError.name(), "SYSTEM_ERROR");
    assert!(!Status::Pending.is_terminal());
    assert!(!Status::Judging.is_terminal());
    assert!(Status::SystemError.is_terminal());
}
