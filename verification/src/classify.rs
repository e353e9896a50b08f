//! The verdict classifier: a total function from one sandbox run's raw,
//! captured output to a structured verdict.
//!
//! Classification runs in a fixed priority order: timeout first, then a
//! compilation-failure marker in either stream, then an acceptance marker in
//! standard output, then a mismatch marker, and finally a runtime error for
//! everything else. Every input yields exactly one terminal status.

use vstd::prelude::*;

use crate::status::Status;
use crate::text::{contains_seq, str_contains};

verus! {

/// One judging request: which submission to judge, in which language, with
/// which source text, against which problem.
pub struct JudgeRequest {
    pub submission_id: i64,
    pub language: String,
    pub source_code: String,
    pub problem_id: u32,
}

/// The verdict bundle produced for one judging run.
pub struct JudgeResult {
    pub status: Status,
    pub score: i32,
    pub execution_time: Option<i32>,
    pub memory_usage: Option<i32>,
    pub compile_message: Option<String>,
    pub runtime_error_type: Option<String>,
    pub runtime_error_message: Option<String>,
    pub total_testcases: i32,
    pub passed_testcases: i32,
    pub testcase_results: Vec<TestcaseResultData>,
    pub compile_errors: Option<Vec<CompileErrorData>>,
}

/// Per-test-case detail attached to a verdict.
pub struct TestcaseResultData {
    pub testcase_number: i32,
    pub status: Status,
    pub execution_time: Option<i32>,
    pub memory_usage: Option<i32>,
    pub error_message: Option<String>,
    pub expected_output: Option<String>,
    pub actual_output: Option<String>,
}

/// One structured compilation diagnostic attached to a verdict.
pub struct CompileErrorData {
    pub line_number: Option<i32>,
    pub column_number: Option<i32>,
    pub error_type: Option<String>,
    pub error_message: String,
}

/// Either stream carries the marker that the sandbox emits when the
/// candidate program failed to compile.
pub open spec fn has_compile_marker(out: Seq<char>, err: Seq<char>) -> bool {
    contains_seq(err, "COMPILATION_ERROR"@) || contains_seq(out, "COMPILATION_ERROR"@)
}

/// The status that classification assigns to a run, in priority order:
/// timeout, compilation failure, acceptance, mismatch, runtime error.
pub open spec fn spec_status_of_run(out: Seq<char>, err: Seq<char>, completed: bool) -> Status {
    if !completed {
        Status::TimeLimitExceeded
    } else if has_compile_marker(out, err) {
        Status::CompilationError
    } else if contains_seq(out, "ACCEPTED"@) {
        Status::Accepted
    } else if contains_seq(out, "WRONG_ANSWER"@) {
        Status::WrongAnswer
    } else {
        Status::RuntimeError
    }
}

/// Every field of a verdict bundle, pinned by the run it classifies: the
/// status follows `spec_status_of_run`, and each remaining field is
/// determined by that status and, for diagnostic text, by the captured
/// standard error.
pub open spec fn verdict_matches_run(
    r: JudgeResult,
    out: Seq<char>,
    err: Seq<char>,
    completed: bool,
) -> bool {
    &&& r.status == spec_status_of_run(out, err, completed)
    &&& r.score == if r.status == Status::Accepted {
        100int
    } else {
        0int
    }
    &&& r.passed_testcases == if r.status == Status::Accepted {
        1int
    } else {
        0int
    }
    &&& r.total_testcases == if r.status == Status::CompilationError {
        0int
    } else {
        1int
    }
    &&& r.status == Status::TimeLimitExceeded ==> {
        &&& r.execution_time is None
        &&& r.memory_usage is None
        &&& r.compile_message is None
        &&& r.runtime_error_type matches Some(t) && t@ == "TIME_LIMIT_EXCEEDED"@
        &&& r.runtime_error_message matches Some(m) && m@
            == "The judging time limit was exceeded."@
        &&& r.testcase_results@.len() == 0
        &&& r.compile_errors is None
    }
    &&& r.status == Status::CompilationError ==> {
        &&& r.execution_time is None
        &&& r.memory_usage is None
        &&& r.compile_message matches Some(c) && c@ == err
        &&& r.runtime_error_type is None
        &&& r.runtime_error_message is None
        &&& r.testcase_results@.len() == 0
        &&& r.compile_errors matches Some(v) && v@.len() == 1 && v@[0].line_number is None
            && v@[0].column_number is None && (v@[0].error_type matches Some(t) && t@
            == "COMPILATION_ERROR"@) && v@[0].error_message@ == err
    }
    &&& r.status == Status::Accepted ==> {
        &&& r.execution_time == Some(100i32)
        &&& r.memory_usage == Some(1024i32)
        &&& r.compile_message is None
        &&& r.runtime_error_type is None
        &&& r.runtime_error_message is None
        &&& r.testcase_results@.len() == 1
        &&& r.testcase_results@[0].testcase_number == 1
        &&& r.testcase_results@[0].status == Status::Accepted
        &&& r.testcase_results@[0].execution_time == Some(100i32)
        &&& r.testcase_results@[0].memory_usage == Some(1024i32)
        &&& r.testcase_results@[0].error_message is None
        &&& r.testcase_results@[0].expected_output is None
        &&& r.testcase_results@[0].actual_output is None
        &&& r.compile_errors is None
    }
    &&& r.status == Status::WrongAnswer ==> {
        &&& r.execution_time == Some(100i32)
        &&& r.memory_usage == Some(1024i32)
        &&& r.compile_message is None
        &&& r.runtime_error_type is None
        &&& r.runtime_error_message is None
        &&& r.testcase_results@.len() == 1
        &&& r.testcase_results@[0].testcase_number == 1
        &&& r.testcase_results@[0].status == Status::WrongAnswer
        &&& r.testcase_results@[0].execution_time == Some(100i32)
        &&& r.testcase_results@[0].memory_usage == Some(1024i32)
        &&& r.testcase_results@[0].error_message matches Some(m) && m@
            == "The output differs from the expected output."@
        &&& r.testcase_results@[0].expected_output is None
        &&& r.testcase_results@[0].actual_output is None
        &&& r.compile_errors is None
    }
    &&& r.status == Status::RuntimeError ==> {
        &&& r.execution_time is None
        &&& r.memory_usage is None
        &&& r.compile_message is None
        &&& r.runtime_error_type matches Some(t) && t@ == "RUNTIME_ERROR"@
        &&& r.runtime_error_message matches Some(m) && m@ == err
        &&& r.testcase_results@.len() == 0
        &&& r.compile_errors is None
    }
}

/// Classifies one run's captured standard output, standard error and
/// completion flag into a verdict bundle whose every field is pinned by
/// `verdict_matches_run`.
pub fn parse_judge_result(stdout: &str, stderr: &str, completed_normally: bool) -> (r:
    JudgeResult)
    ensures
        verdict_matches_run(r, stdout@, stderr@, completed_normally),
{
    if !completed_normally {
        return JudgeResult {
            status: Status::TimeLimitExceeded,
            score: 0,
            execution_time: None,
            memory_usage: None,
            compile_message: None,
            runtime_error_type: Some(String::from_str("TIME_LIMIT_EXCEEDED")),
            runtime_error_message: Some(
                String::from_str("The judging time limit was exceeded."),
            ),
            total_testcases: 1,
            passed_testcases: 0,
            testcase_results: Vec::new(),
            compile_errors: None,
        };
    }
    if str_contains(stderr, "COMPILATION_ERROR") || str_contains(stdout, "COMPILATION_ERROR") {
        let mut compile_errors: Vec<CompileErrorData> = Vec::new();
        compile_errors.push(
            CompileErrorData {
                line_number: None,
                column_number: None,
                error_type: Some(String::from_str("COMPILATION_ERROR")),
                error_message: String::from_str(stderr),
            },
        );
        return JudgeResult {
            status: Status::CompilationError,
            score: 0,
            execution_time: None,
            memory_usage: None,
            compile_message: Some(String::from_str(stderr)),
            runtime_error_type: None,
            runtime_error_message: None,
            total_testcases: 0,
            passed_testcases: 0,
            testcase_results: Vec::new(),
            compile_errors: Some(compile_errors),
        };
    }
    if str_contains(stdout, "ACCEPTED") {
        let mut testcase_results: Vec<TestcaseResultData> = Vec::new();
        testcase_results.push(
            TestcaseResultData {
                testcase_number: 1,
                status: Status::Accepted,
                execution_time: Some(100),
                memory_usage: Some(1024),
                error_message: None,
                expected_output: None,
                actual_output: None,
            },
        );
        JudgeResult {
            status: Status::Accepted,
            score: 100,
            execution_time: Some(100),
            memory_usage: Some(1024),
            compile_message: None,
            runtime_error_type: None,
            runtime_error_message: None,
            total_testcases: 1,
            passed_testcases: 1,
            testcase_results,
            compile_errors: None,
        }
    } else if str_contains(stdout, "WRONG_ANSWER") {
        let mut testcase_results: Vec<TestcaseResultData> = Vec::new();
        testcase_results.push(
            TestcaseResultData {
                testcase_number: 1,
                status: Status::WrongAnswer,
                execution_time: Some(100),
                memory_usage: Some(1024),
                error_message: Some(
                    String::from_str("The output differs from the expected output."),
                ),
                expected_output: None,
                actual_output: None,
            },
        );
        JudgeResult {
            status: Status::WrongAnswer,
            score: 0,
            execution_time: Some(100),
            memory_usage: Some(1024),
            compile_message: None,
            runtime_error_type: None,
            runtime_error_message: None,
            total_testcases: 1,
            passed_testcases: 0,
            testcase_results,
            compile_errors: None,
        }
    } else {
        JudgeResult {
            status: Status::RuntimeError,
            score: 0,
            execution_time: None,
            memory_usage: None,
            compile_message: None,
            runtime_error_type: Some(String::from_str("RUNTIME_ERROR")),
            runtime_error_message: Some(String::from_str(stderr)),
            total_testcases: 1,
            passed_testcases: 0,
            testcase_results: Vec::new(),
            compile_errors: None,
        }
    }
}

/// Classifier totality: whatever the two streams hold and however the run
/// ended, the assigned status is terminal — classification never leaves a
/// submission pending and never produces an unknown status.
pub proof fn lemma_classifier_total(out: Seq<char>, err: Seq<char>, completed: bool)
    ensures
        spec_status_of_run(out, err, completed).spec_is_terminal(),
        spec_status_of_run(out, err, completed) != Status::SystemError,
{
}

/// Classifier priority: acceptance is checked before mismatch, so standard
/// output that carries an acceptance marker resolves to `Accepted` even when
/// a mismatch marker is present as well.
pub proof fn lemma_accept_checked_before_mismatch(out: Seq<char>, err: Seq<char>)
    requires
        contains_seq(out, "ACCEPTED"@),
        !has_compile_marker(out, err),
    ensures
        spec_status_of_run(out, err, true) == Status::Accepted,
{
}

/// Timeout short-circuit: a run that did not complete within the wall-clock
/// budget is classified `TimeLimitExceeded` regardless of what either stream
/// holds, acceptance markers included.
pub proof fn lemma_timeout_short_circuit(out: Seq<char>, err: Seq<char>)
    ensures
        spec_status_of_run(out, err, false) == Status::TimeLimitExceeded,
{
}

} // verus!
