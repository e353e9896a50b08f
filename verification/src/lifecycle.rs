//! The submission lifecycle: a persisted record that moves from `Pending` to
//! exactly one terminal status.
//!
//! The record's invariant is the one the database relies on: the judged
//! timestamp is set if and only if the status is terminal. A verdict or an
//! infrastructure failure is applied at most once, to a pending record, and
//! either terminates it.

use vstd::prelude::*;

use crate::classify::{JudgeResult, TestcaseResultData};
use crate::status::Status;
use crate::text::{clone_opt_string, clone_string};

verus! {

/// What a submitter hands in: the language and the source text.
pub struct SubmitForm {
    pub language: String,
    pub source_code: String,
}

/// One submission as shown in a problem's submission list.
pub struct SubmissionRow {
    pub id: i64,
    pub username: String,
    pub language: String,
    pub status: Status,
    pub score: Option<i32>,
    pub execution_time: Option<i32>,
    pub memory_usage: Option<i32>,
    pub submitted_at: String,
}

/// A problem together with its recent submissions.
pub struct ProblemStatusData {
    pub id: i64,
    pub title: String,
    pub submissions: Vec<SubmissionRow>,
}

/// The full submission record the judging pipeline owns.
pub struct SubmissionDetailRow {
    pub id: i64,
    pub problem_id: i64,
    pub username: String,
    pub language: String,
    pub status: Status,
    pub score: Option<i32>,
    pub execution_time: Option<i32>,
    pub memory_usage: Option<i32>,
    pub compile_message: Option<String>,
    pub runtime_error_type: Option<String>,
    pub runtime_error_message: Option<String>,
    pub total_testcases: i32,
    pub passed_testcases: i32,
    pub submitted_at: String,
    pub judged_at: Option<String>,
}

/// One persisted per-test-case result row.
pub struct TestcaseResultRow {
    pub testcase_number: i32,
    pub status: Status,
    pub execution_time: Option<i32>,
    pub memory_usage: Option<i32>,
    pub error_message: Option<String>,
}

/// A submission together with its test-case rows.
pub struct SubmissionDetailData {
    pub submission: SubmissionDetailRow,
    pub testcase_results: Vec<TestcaseResultRow>,
}

impl SubmissionDetailRow {
    /// The lifecycle invariant: the judged timestamp is set if and only if
    /// the status is terminal.
    pub open spec fn wf(self) -> bool {
        (self.judged_at is Some) <==> self.status.spec_is_terminal()
    }

    /// Opens a new submission record: pending, unjudged, without verdict
    /// detail.
    pub fn new_submission(
        id: i64,
        problem_id: i64,
        username: String,
        language: String,
        submitted_at: String,
    ) -> (r: SubmissionDetailRow)
        ensures
            r.wf(),
            r.id == id,
            r.problem_id == problem_id,
            r.username@ == username@,
            r.language@ == language@,
            r.status == Status::Pending,
            r.score is None,
            r.execution_time is None,
            r.memory_usage is None,
            r.compile_message is None,
            r.runtime_error_type is None,
            r.runtime_error_message is None,
            r.total_testcases == 0,
            r.passed_testcases == 0,
            r.submitted_at@ == submitted_at@,
            r.judged_at is None,
    {
        SubmissionDetailRow {
            id,
            problem_id,
            username,
            language,
            status: Status::Pending,
            score: None,
            execution_time: None,
            memory_usage: None,
            compile_message: None,
            runtime_error_type: None,
            runtime_error_message: None,
            total_testcases: 0,
            passed_testcases: 0,
            submitted_at,
            judged_at: None,
        }
    }

    /// Applies a verdict to a pending record: every verdict scalar is copied
    /// onto the row and the judged timestamp is set, terminating the record.
    pub fn apply_verdict(&mut self, verdict: &JudgeResult, judged_at: String)
        requires
            old(self).wf(),
            old(self).status == Status::Pending,
            verdict.status.spec_is_terminal(),
        ensures
            final(self).wf(),
            final(self).status == verdict.status,
            final(self).score == Some(verdict.score),
            final(self).execution_time == verdict.execution_time,
            final(self).memory_usage == verdict.memory_usage,
            (final(self).compile_message is Some) == (verdict.compile_message is Some),
            (verdict.compile_message matches Some(m) ==> (final(self).compile_message
                matches Some(m2) && m2@ == m@)),
            (final(self).runtime_error_type is Some) == (verdict.runtime_error_type is Some),
            (verdict.runtime_error_type matches Some(m) ==> (final(self).runtime_error_type
                matches Some(m2) && m2@ == m@)),
            (final(self).runtime_error_message is Some) == (verdict.runtime_error_message
                is Some),
            (verdict.runtime_error_message matches Some(m) ==> (final(self).runtime_error_message
                matches Some(m2) && m2@ == m@)),
            final(self).total_testcases == verdict.total_testcases,
            final(self).passed_testcases == verdict.passed_testcases,
            (final(self).judged_at matches Some(t) && t@ == judged_at@),
            final(self).id == old(self).id,
            final(self).problem_id == old(self).problem_id,
            final(self).username == old(self).username,
            final(self).language == old(self).language,
            final(self).submitted_at == old(self).submitted_at,
    {
        self.status = verdict.status;
        self.score = Some(verdict.score);
        self.execution_time = verdict.execution_time;
        self.memory_usage = verdict.memory_usage;
        self.compile_message = clone_opt_string(&verdict.compile_message);
        self.runtime_error_type = clone_opt_string(&verdict.runtime_error_type);
        self.runtime_error_message = clone_opt_string(&verdict.runtime_error_message);
        self.total_testcases = verdict.total_testcases;
        self.passed_testcases = verdict.passed_testcases;
        self.judged_at = Some(judged_at);
    }

    /// Terminates a pending record after an infrastructure failure: the
    /// status becomes `SystemError` and the judged timestamp is set, so that
    /// no submission stays pending forever. No verdict detail is recorded.
    pub fn apply_system_error(&mut self, judged_at: String)
        requires
            old(self).wf(),
            old(self).status == Status::Pending,
        ensures
            final(self).wf(),
            final(self).status == Status::SystemError,
            (final(self).judged_at matches Some(t) && t@ == judged_at@),
            final(self).score == old(self).score,
            final(self).execution_time == old(self).execution_time,
            final(self).memory_usage == old(self).memory_usage,
            final(self).compile_message == old(self).compile_message,
            final(self).runtime_error_type == old(self).runtime_error_type,
            final(self).runtime_error_message == old(self).runtime_error_message,
            final(self).total_testcases == old(self).total_testcases,
            final(self).passed_testcases == old(self).passed_testcases,
            final(self).id == old(self).id,
            final(self).problem_id == old(self).problem_id,
            final(self).username == old(self).username,
            final(self).language == old(self).language,
            final(self).submitted_at == old(self).submitted_at,
    {
        self.status = Status::SystemError;
        self.judged_at = Some(judged_at);
    }
}

/// The judged-iff-terminal invariant, as a statement of its own: a
/// well-formed record is judged exactly when its status is terminal.
pub proof fn lemma_judged_iff_terminal(s: SubmissionDetailRow)
    requires
        s.wf(),
    ensures
        (s.judged_at is Some) <==> s.status.spec_is_terminal(),
{
}

/// A persisted test-case row carries the same fields as the verdict's
/// test-case entry; capture columns are not persisted here.
pub open spec fn row_matches_data(row: TestcaseResultRow, data: TestcaseResultData) -> bool {
    &&& row.testcase_number == data.testcase_number
    &&& row.status == data.status
    &&& row.execution_time == data.execution_time
    &&& row.memory_usage == data.memory_usage
    &&& (row.error_message is Some) == (data.error_message is Some)
    &&& (data.error_message matches Some(m) ==> (row.error_message matches Some(m2) && m2@
        == m@))
}

/// Builds the test-case rows to persist for one verdict, one row per
/// test-case entry, in order.
pub fn testcase_rows(verdict: &JudgeResult) -> (r: Vec<TestcaseResultRow>)
    ensures
        r@.len() == verdict.testcase_results@.len(),
        forall|i: int|
            0 <= i < r@.len() ==> row_matches_data(#[trigger] r@[i], verdict.testcase_results@[i]),
{
    let mut rows: Vec<TestcaseResultRow> = Vec::new();
    let mut i: usize = 0;
    while i < verdict.testcase_results.len()
        invariant
            i <= verdict.testcase_results@.len(),
            rows@.len() == i,
            forall|j: int|
                0 <= j < i ==> row_matches_data(#[trigger] rows@[j], verdict.testcase_results@[j]),
        decreases verdict.testcase_results@.len() - i,
    {
        let data = &verdict.testcase_results[i];
        rows.push(
            TestcaseResultRow {
                testcase_number: data.testcase_number,
                status: data.status,
                execution_time: data.execution_time,
                memory_usage: data.memory_usage,
                error_message: clone_opt_string(&data.error_message),
            },
        );
        i += 1;
    }
    rows
}

} // verus!
