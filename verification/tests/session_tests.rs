use judge_core::classify::JudgeRequest;
use judge_core::session::{
    docker_image, source_file_name, testcase_bucket, testcase_dir_path, workspace_dir_path,
    JudgeError, JudgeSession, SessionAction, SessionEvent, SessionState,
};
use judge_core::Status;

fn request(language: &str) -> JudgeRequest {
    JudgeRequest {
        submission_id: 7,
        language: language.to_string(),
        source_code: "print(1)".to_string(),
        problem_id: 1001,
    }
}

#[test]
fn language_mappings() {
    assert_eq!(source_file_name("cpp"), Some("Main.cpp"));
    assert_eq!(source_file_name("python"), Some("Main.py"));
    assert_eq!(source_file_name("java"), Some("Main.java"));
    assert_eq!(source_file_name("brainfuck"), None);
    assert_eq!(docker_image("cpp"), Some("nekonic-judge-cpp:latest"));
    assert_eq!(docker_image("python"), Some("nekonic-judge-python:latest"));
    assert_eq!(docker_image("java"), Some("nekonic-judge-java:latest"));
    assert_eq!(docker_image(""), None);
}

#[test]
fn bucket_rounds_down_to_the_nearest_thousand() {
    assert_eq!(testcase_bucket(0), 0);
    assert_eq!(testcase_bucket(1), 0);
    assert_eq!(testcase_bucket(999), 0);
    assert_eq!(testcase_bucket(1000), 1000);
    assert_eq!(testcase_bucket(1001), 1000);
    assert_eq!(testcase_bucket(2500), 2000);
}

#[test]
fn testcase_path_follows_the_convention() {
    assert_eq!(testcase_dir_path(1001), "./problems/001000/1001/testcases");
    assert_eq!(testcase_dir_path(5), "./problems/000000/5/testcases");
    assert_eq!(testcase_dir_path(999999), "./problems/999000/999999/testcases");
}

#[test]
fn workspace_path_has_the_fixed_prefix() {
    assert_eq!(workspace_dir_path("abc"), "/tmp/judge_abc");
}

#[test]
fn session_ids_are_long_and_distinct() {
    let (s1, _) = JudgeSession::start(request("python"));
    let (s2, _) = JudgeSession::start(request("python"));
    assert_eq!(s1.session_id.chars().count(), 36);
    assert_eq!(s2.session_id.chars().count(), 36);
    assert_ne!(s1.session_id, s2.session_id);
}

#[test]
fn unsupported_language_is_rejected_before_any_resource() {
    let (session, action) = JudgeSession::start(request("cobol"));
    assert!(!session.workspace_live);
    assert!(matches!(action, SessionAction::Report));
    match session.state {
        SessionState::Finished {
            outcome: Err(JudgeError::UnsupportedLanguage),
        } => {}
        _ => panic!("expected rejection before any workspace"),
    }
}

#[test]
fn accepted_run_walks_the_whole_session() {
    let (mut session, action) = JudgeSession::start(request("cpp"));
    let dir = match action {
        SessionAction::CreateWorkspace {
            dir,
            file_name,
            source,
        } => {
            assert_eq!(file_name, "Main.cpp");
            assert_eq!(source, "print(1)");
            assert_eq!(dir, format!("/tmp/judge_{}", session.session_id));
            dir
        }
        _ => panic!("expected a workspace request"),
    };
    assert!(session.workspace_live);

    let action = session.on_event(SessionEvent::WorkspaceReady);
    match action {
        SessionAction::RunSandbox {
            image,
            workspace_dir,
            testcase_dir,
            memory_limit_bytes,
            cpu_quota,
            timeout_seconds,
            network_disabled,
        } => {
            assert_eq!(image, "nekonic-judge-cpp:latest");
            assert_eq!(workspace_dir, dir);
            assert_eq!(testcase_dir, "./problems/001000/1001/testcases");
            assert_eq!(memory_limit_bytes, 512 * 1024 * 1024);
            assert_eq!(cpu_quota, 100000);
            assert_eq!(timeout_seconds, 30);
            assert!(network_disabled);
        }
        _ => panic!("expected a sandbox run"),
    }

    let action = session.on_event(SessionEvent::RunCompleted {
        stdout: "ACCEPTED".to_string(),
        stderr: String::new(),
        completed_within_budget: true,
    });
    match action {
        SessionAction::RemoveWorkspace { dir: d } => assert_eq!(d, dir),
        _ => panic!("cleanup must come before the verdict is reported"),
    }
    assert!(session.workspace_live);

    let action = session.on_event(SessionEvent::CleanupDone);
    assert!(matches!(action, SessionAction::Report));
    assert!(!session.workspace_live);
    match session.state {
        SessionState::Finished { outcome: Ok(v) } => {
            assert_eq!(v.status, Status::Accepted);
            assert_eq!(v.score, 100);
            assert_eq!(v.testcase_results.len(), 1);
        }
        _ => panic!("expected an accepted verdict"),
    }
}

#[test]
fn timed_out_run_still_cleans_up_and_reports_a_verdict() {
    let (mut session, _) = JudgeSession::start(request("java"));
    session.on_event(SessionEvent::WorkspaceReady);
    let action = session.on_event(SessionEvent::RunCompleted {
        stdout: "ACCEPTED".to_string(),
        stderr: String::new(),
        completed_within_budget: false,
    });
    assert!(matches!(action, SessionAction::RemoveWorkspace { .. }));
    session.on_event(SessionEvent::CleanupDone);
    assert!(!session.workspace_live);
    match session.state {
        SessionState::Finished { outcome: Ok(v) } => {
            assert_eq!(v.status, Status::TimeLimitExceeded);
            assert_eq!(v.score, 0);
            assert!(v.runtime_error_type.is_some());
            assert_eq!(v.testcase_results.len(), 0);
        }
        _ => panic!("a timeout is a verdict, not an error"),
    }
}

#[test]
fn sandbox_failure_becomes_an_infrastructure_error_after_cleanup() {
    let (mut session, _) = JudgeSession::start(request("python"));
    session.on_event(SessionEvent::WorkspaceReady);
    let action = session.on_event(SessionEvent::RunFailed {
        message: "cannot reach the isolation runtime".to_string(),
    });
    assert!(matches!(action, SessionAction::RemoveWorkspace { .. }));
    session.on_event(SessionEvent::CleanupDone);
    assert!(!session.workspace_live);
    match session.state {
        SessionState::Finished {
            outcome: Err(JudgeError::Infrastructure { message }),
        } => assert_eq!(message, "cannot reach the isolation runtime"),
        _ => panic!("expected an infrastructure error"),
    }
}

#[test]
fn workspace_failure_cleans_up_too() {
    let (mut session, _) = JudgeSession::start(request("python"));
    let action = session.on_event(SessionEvent::WorkspaceFailed {
        message: "disk full".to_string(),
    });
    assert!(matches!(action, SessionAction::RemoveWorkspace { .. }));
    assert!(session.workspace_live);
    session.on_event(SessionEvent::CleanupDone);
    assert!(!session.workspace_live);
    assert!(matches!(
        session.state,
        SessionState::Finished { outcome: Err(_) }
    ));
}
