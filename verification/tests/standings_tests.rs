use judge_core::models::{default_user_type, org_sort_column, page_window, sort_direction};
use judge_core::standings::{
    contest_phase, problem_submission_status, submission_window_open, ContestPhase,
};
use judge_core::text::{format_bucket, str_contains, str_eq, u32_to_string};
use judge_core::Status;

#[test]
fn phases_split_the_timeline() {
    assert_eq!(contest_phase(99, 100, 200), ContestPhase::Upcoming);
    assert_eq!(contest_phase(100, 100, 200), ContestPhase::Active);
    assert_eq!(contest_phase(150, 100, 200), ContestPhase::Active);
    assert_eq!(contest_phase(200, 100, 200), ContestPhase::Active);
    assert_eq!(contest_phase(201, 100, 200), ContestPhase::Ended);
    assert_eq!(contest_phase(99, 100, 200).name(), "upcoming");
    assert_eq!(contest_phase(150, 100, 200).name(), "active");
    assert_eq!(contest_phase(201, 100, 200).name(), "ended");
}

#[test]
fn submissions_only_while_active() {
    assert!(!submission_window_open(99, 100, 200));
    assert!(submission_window_open(100, 100, 200));
    assert!(submission_window_open(200, 100, 200));
    assert!(!submission_window_open(201, 100, 200));
}

#[test]
fn problem_status_line_counts_attempts_until_accept() {
    let statuses = vec![
        Status::Pending,
        Status::WrongAnswer,
        Status::TimeLimitExceeded,
        Status::Accepted,
        Status::WrongAnswer,
    ];
    let line = problem_submission_status(1001, &statuses);
    assert_eq!(line.problem_id, 1001);
    assert!(line.solved);
    assert_eq!(line.attempts, 2);
    assert_eq!(line.time_minutes, 0);

    let unsolved = vec![Status::WrongAnswer, Status::WrongAnswer];
    let line = problem_submission_status(2, &unsolved);
    assert!(!line.solved);
    assert_eq!(line.attempts, 2);

    let line = problem_submission_status(3, &Vec::new());
    assert!(!line.solved);
    assert_eq!(line.attempts, 0);
}

#[test]
fn ranking_defaults_and_sort_keys() {
    assert_eq!(default_user_type(), "all");
    assert_eq!(org_sort_column("member_count"), "member_count");
    assert_eq!(org_sort_column("total_rating"), "total_rating");
    assert_eq!(org_sort_column("total_solved"), "total_solved");
    assert_eq!(org_sort_column("anything else"), "avg_rating");
    assert_eq!(sort_direction("asc"), "ASC");
    assert_eq!(sort_direction("desc"), "DESC");
    assert_eq!(sort_direction(""), "DESC");
}

#[test]
fn page_windows() {
    assert_eq!(page_window(1, 20, 0), (0, 0));
    assert_eq!(page_window(1, 20, 1), (0, 1));
    assert_eq!(page_window(1, 20, 20), (0, 1));
    assert_eq!(page_window(2, 20, 21), (20, 2));
    assert_eq!(page_window(3, 20, 100), (40, 5));
}

#[test]
fn text_helpers() {
    assert!(str_contains("hello world", "lo wo"));
    assert!(str_contains("abc", ""));
    assert!(!str_contains("abc", "abcd"));
    assert!(!str_contains("ACCEPTE", "ACCEPTED"));
    assert!(str_eq("same", "same"));
    assert!(!str_eq("same", "Same"));
    assert_eq!(u32_to_string(0), "0");
    assert_eq!(u32_to_string(7), "7");
    assert_eq!(u32_to_string(1001), "1001");
    assert_eq!(u32_to_string(4294967295), "4294967295");
    assert_eq!(format_bucket(0), "000000");
    assert_eq!(format_bucket(1000), "001000");
    assert_eq!(format_bucket(999000), "999000");
    assert_eq!(format_bucket(1000000), "1000000");
}

#[test]
fn standings_order_solved_desc_penalty_asc_name_asc() {
    let entry = |username: &str, solved: i32, penalty: i32| judge_core::standings::StandingsEntry {
        rank: 0,
        user_id: 0,
        username: username.to_string(),
        solved,
        penalty,
        total_score: solved,
    };
    let entries = vec![
        entry("dave", 1, 40),
        entry("alice", 2, 100),
        entry("carol", 2, 30),
        entry("bob", 2, 30),
        entry("erin", 0, 0),
    ];
    let sorted = judge_core::standings::sort_standings(entries);
    let ranked = judge_core::standings::assign_ranks(sorted);
    let order: Vec<(&str, i64)> = ranked
        .iter()
        .map(|e| (e.username.as_str(), e.rank))
        .collect();
    assert_eq!(
        order,
        vec![
            ("bob", 1),
            ("carol", 2),
            ("alice", 3),
            ("dave", 4),
            ("erin", 5),
        ]
    );
    assert_eq!(ranked[0].solved, 2);
    assert_eq!(ranked[0].penalty, 30);
}

#[test]
fn ranks_count_from_one_and_keep_fields() {
    let entries = vec![judge_core::standings::StandingsEntry {
        rank: 99,
        user_id: 5,
        username: "zoe".to_string(),
        solved: 3,
        penalty: 77,
        total_score: 3,
    }];
    let ranked = judge_core::standings::assign_ranks(entries);
    assert_eq!(ranked.len(), 1);
    assert_eq!(ranked[0].rank, 1);
    assert_eq!(ranked[0].user_id, 5);
    assert_eq!(ranked[0].username, "zoe");
    assert_eq!(ranked[0].penalty, 77);
}
