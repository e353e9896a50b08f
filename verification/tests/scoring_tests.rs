use judge_core::scoring::{
    get_problem_status, recompute_standings, score_problem, SubmissionAttempt,
};
use judge_core::timestamp::parse_db_datetime;
use judge_core::Status;

fn attempt(status: Status, created_at: &str) -> SubmissionAttempt {
    SubmissionAttempt {
        status,
        created_at: created_at.to_string(),
    }
}

// Contest start used throughout: 2025-01-01 10:00 UTC.
const T0: &str = "2025-01-01T10:00:00Z";

fn t0_epoch() -> i64 {
    parse_db_datetime(T0).unwrap()
}

#[test]
fn penalty_arithmetic_concrete_scenario() {
    // Problem A: wrong at start+5m, wrong at start+12m, accepted at start+18m.
    let problem_a = vec![
        attempt(Status::WrongAnswer, "2025-01-01T10:05:00Z"),
        attempt(Status::WrongAnswer, "2025-01-01T10:12:00Z"),
        attempt(Status::Accepted, "2025-01-01T10:18:00Z"),
    ];
    let totals = recompute_standings(&vec![problem_a], t0_epoch());
    assert_eq!(totals.total_solved, 1);
    assert_eq!(totals.total_penalty, 18 + 20 * 2);
}

#[test]
fn unsolved_problem_contributes_nothing() {
    // Problem B: three wrong answers, never accepted: +0 solved, +0 penalty.
    let problem_b = vec![
        attempt(Status::WrongAnswer, "2025-01-01T10:05:00Z"),
        attempt(Status::WrongAnswer, "2025-01-01T10:12:00Z"),
        attempt(Status::WrongAnswer, "2025-01-01T10:30:00Z"),
    ];
    let totals = recompute_standings(&vec![problem_b], t0_epoch());
    assert_eq!(totals.total_solved, 0);
    assert_eq!(totals.total_penalty, 0);
}

#[test]
fn recompute_is_idempotent() {
    let history = vec![
        vec![
            attempt(Status::WrongAnswer, "2025-01-01T10:05:00Z"),
            attempt(Status::Accepted, "2025-01-01T10:18:00Z"),
        ],
        vec![attempt(Status::WrongAnswer, "2025-01-01T10:20:00Z")],
    ];
    let first = recompute_standings(&history, t0_epoch());
    let second = recompute_standings(&history, t0_epoch());
    assert_eq!(first.total_solved, second.total_solved);
    assert_eq!(first.total_penalty, second.total_penalty);
}

#[test]
fn attempts_after_solving_change_nothing() {
    let solved = vec![
        attempt(Status::WrongAnswer, "2025-01-01T10:05:00Z"),
        attempt(Status::Accepted, "2025-01-01T10:18:00Z"),
    ];
    let before = recompute_standings(&vec![clone_attempts(&solved)], t0_epoch());
    let mut extended = clone_attempts(&solved);
    extended.push(attempt(Status::WrongAnswer, "2025-01-01T11:00:00Z"));
    extended.push(attempt(Status::WrongAnswer, "2025-01-01T11:30:00Z"));
    let after = recompute_standings(&vec![extended], t0_epoch());
    assert_eq!(before.total_solved, after.total_solved);
    assert_eq!(before.total_penalty, after.total_penalty);
}

fn clone_attempts(v: &[SubmissionAttempt]) -> Vec<SubmissionAttempt> {
    v.iter()
        .map(|a| SubmissionAttempt {
            status: a.status,
            created_at: a.created_at.clone(),
        })
        .collect()
}

#[test]
fn pending_and_judging_are_not_attempts() {
    let history = vec![
        attempt(Status::Pending, "2025-01-01T10:01:00Z"),
        attempt(Status::Judging, "2025-01-01T10:02:00Z"),
        attempt(Status::RuntimeError, "2025-01-01T10:03:00Z"),
        attempt(Status::Accepted, "2025-01-01T10:10:00Z"),
    ];
    let totals = recompute_standings(&vec![history], t0_epoch());
    assert_eq!(totals.total_solved, 1);
    assert_eq!(totals.total_penalty, 10 + 20);
}

#[test]
fn every_terminal_non_accept_counts_as_wrong() {
    let history = vec![
        attempt(Status::CompilationError, "2025-01-01T10:01:00Z"),
        attempt(Status::TimeLimitExceeded, "2025-01-01T10:02:00Z"),
        attempt(Status::SystemError, "2025-01-01T10:03:00Z"),
        attempt(Status::Accepted, "2025-01-01T10:04:00Z"),
    ];
    let totals = recompute_standings(&vec![history], t0_epoch());
    assert_eq!(totals.total_solved, 1);
    assert_eq!(totals.total_penalty, 4 + 20 * 3);
}

#[test]
fn unparsable_timestamps_are_skipped() {
    // An accepted submission with an unreadable timestamp contributes
    // nothing: the problem stays unsolved.
    let history = vec![
        attempt(Status::WrongAnswer, "2025-01-01T10:05:00Z"),
        attempt(Status::Accepted, "garbled"),
    ];
    let totals = recompute_standings(&vec![history], t0_epoch());
    assert_eq!(totals.total_solved, 0);
    assert_eq!(totals.total_penalty, 0);

    // An unreadable wrong attempt costs nothing either; the walk continues
    // to the readable accepting submission.
    let history = vec![
        attempt(Status::WrongAnswer, "not a timestamp"),
        attempt(Status::Accepted, "2025-01-01T10:18:00Z"),
    ];
    let totals = recompute_standings(&vec![history], t0_epoch());
    assert_eq!(totals.total_solved, 1);
    assert_eq!(totals.total_penalty, 18);

    // A skipped accepting submission does not stop the walk: a later
    // readable one still solves the problem, at its own time.
    let history = vec![
        attempt(Status::WrongAnswer, "2025-01-01T10:05:00Z"),
        attempt(Status::Accepted, "garbled"),
        attempt(Status::Accepted, "2025-01-01T10:30:00Z"),
    ];
    let totals = recompute_standings(&vec![history], t0_epoch());
    assert_eq!(totals.total_solved, 1);
    assert_eq!(totals.total_penalty, 30 + 20);
}

#[test]
fn accept_before_contest_start_counts_zero_minutes() {
    let history = vec![attempt(Status::Accepted, "2025-01-01T09:00:00Z")];
    let totals = recompute_standings(&vec![history], t0_epoch());
    assert_eq!(totals.total_solved, 1);
    assert_eq!(totals.total_penalty, 0);
}

#[test]
fn totals_sum_over_problems() {
    let a = vec![attempt(Status::Accepted, "2025-01-01T10:30:00Z")];
    let b = vec![
        attempt(Status::WrongAnswer, "2025-01-01T10:10:00Z"),
        attempt(Status::Accepted, "2025-01-01T10:40:00Z"),
    ];
    let c = vec![attempt(Status::WrongAnswer, "2025-01-01T10:50:00Z")];
    let totals = recompute_standings(&vec![a, b, c], t0_epoch());
    assert_eq!(totals.total_solved, 2);
    assert_eq!(totals.total_penalty, 30 + (40 + 20));
}

#[test]
fn score_problem_reports_the_walk() {
    let history = vec![
        attempt(Status::WrongAnswer, "2025-01-01T10:05:00Z"),
        attempt(Status::Accepted, "2025-01-01T10:18:30Z"),
        attempt(Status::WrongAnswer, "2025-01-01T11:00:00Z"),
    ];
    let outcome = score_problem(&history, t0_epoch());
    assert!(outcome.solved);
    assert_eq!(outcome.wrong_attempts, 1);
    // 18.5 minutes floor to 18.
    assert_eq!(outcome.solve_minutes, 18);
}

#[test]
fn problem_status_reads_statuses_only() {
    let history = vec![
        attempt(Status::WrongAnswer, "2025-01-01T10:05:00Z"),
        attempt(Status::WrongAnswer, "2025-01-01T10:06:00Z"),
        attempt(Status::Accepted, "2025-01-01T10:07:00Z"),
        attempt(Status::WrongAnswer, "2025-01-01T10:08:00Z"),
    ];
    let status = get_problem_status(&history);
    assert!(status.solved);
    assert_eq!(status.attempts, 2);
    assert_eq!(status.time_minutes, 0);

    // The display walk never looks at timestamps, so an unreadable one
    // changes nothing here.
    let garbled = vec![
        attempt(Status::WrongAnswer, "garbled"),
        attempt(Status::Accepted, "also garbled"),
    ];
    let status = get_problem_status(&garbled);
    assert!(status.solved);
    assert_eq!(status.attempts, 1);

    let unsolved = vec![
        attempt(Status::WrongAnswer, "2025-01-01T10:05:00Z"),
        attempt(Status::Pending, "2025-01-01T10:06:00Z"),
    ];
    let status = get_problem_status(&unsolved);
    assert!(!status.solved);
    assert_eq!(status.attempts, 1);

    let empty: Vec<SubmissionAttempt> = Vec::new();
    let status = get_problem_status(&empty);
    assert!(!status.solved);
    assert_eq!(status.attempts, 0);
    assert_eq!(status.time_minutes, 0);
}

#[test]
fn empty_contest_has_zero_totals() {
    let totals = recompute_standings(&Vec::new(), t0_epoch());
    assert_eq!(totals.total_solved, 0);
    assert_eq!(totals.total_penalty, 0);
}
