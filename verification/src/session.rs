//! The judging orchestrator as a state machine.
//!
//! One judging run is one session. The session owns the decisions — which
//! file name and sandbox image the language selects, where the workspace and
//! the test-case directory live, which limits apply, how the raw output is
//! classified — and hands the blocking work out as actions: create the
//! workspace, run the sandbox, remove the workspace. The caller performs each
//! action and reports what happened; the session decides the next step.
//!
//! The machine guarantees the workspace discipline: a session reaches
//! `Finished` only after its workspace was removed, or when it was rejected
//! before any workspace was requested.

use vstd::prelude::*;

use crate::classify::{parse_judge_result, verdict_matches_run, JudgeRequest, JudgeResult};
use crate::text::{
    clone_string, format_bucket, spec_bucket_name, spec_decimal, str_eq, u32_to_string,
};

verus! {

/// Failure of a judging session that is not a verdict.
pub enum JudgeError {
    /// The submission's language selects no sandbox image: rejected before
    /// any resource is allocated.
    UnsupportedLanguage,
    /// The isolation layer or the filesystem failed; the submission must
    /// still be terminated, as a system error.
    Infrastructure { message: String },
}

/// Where a session stands.
pub enum SessionState {
    /// The workspace directory is being created and the source written.
    AwaitingWorkspace,
    /// The sandbox is running the candidate program.
    AwaitingRun,
    /// The workspace is being removed; the outcome is already decided.
    AwaitingCleanup { pending: Result<JudgeResult, String> },
    /// The session is over and the workspace is gone.
    Finished { outcome: Result<JudgeResult, JudgeError> },
}

/// What the caller reports back after performing an action.
pub enum SessionEvent {
    /// The workspace exists and holds the source file.
    WorkspaceReady,
    /// Creating the workspace or writing the source failed.
    WorkspaceFailed { message: String },
    /// The sandbox ran; its captured streams and completion flag.
    RunCompleted { stdout: String, stderr: String, completed_within_budget: bool },
    /// The sandbox could not be created or started.
    RunFailed { message: String },
    /// Workspace removal was performed (failure to remove is logged by the
    /// caller, never escalated).
    CleanupDone,
}

/// The next piece of outside work the caller must perform.
pub enum SessionAction {
    /// Create `dir`, and write `source` into `file_name` inside it.
    CreateWorkspace { dir: String, file_name: String, source: String },
    /// Run the sandbox image once: workspace mounted writable, the test-case
    /// directory mounted read-only when it exists, no network, and the given
    /// memory, CPU and wall-clock limits.
    RunSandbox {
        image: String,
        workspace_dir: String,
        testcase_dir: String,
        memory_limit_bytes: i64,
        cpu_quota: i64,
        timeout_seconds: u64,
        network_disabled: bool,
    },
    /// Remove `dir` and everything under it.
    RemoveWorkspace { dir: String },
    /// Nothing is left to do: the outcome stands in the session's state.
    Report,
}

/// The language is one of the supported ones.
pub open spec fn spec_supported_language(l: Seq<char>) -> bool {
    l == "cpp"@ || l == "python"@ || l == "java"@
}

/// The one fixed source file name each language expects.
pub open spec fn spec_source_file_name(l: Seq<char>) -> Seq<char> {
    if l == "cpp"@ {
        "Main.cpp"@
    } else if l == "python"@ {
        "Main.py"@
    } else {
        "Main.java"@
    }
}

/// The pre-built sandbox image each language selects.
pub open spec fn spec_docker_image(l: Seq<char>) -> Seq<char> {
    if l == "cpp"@ {
        "nekonic-judge-cpp:latest"@
    } else if l == "python"@ {
        "nekonic-judge-python:latest"@
    } else {
        "nekonic-judge-java:latest"@
    }
}

/// The bucket a problem's content lives under: the problem id rounded down
/// to the nearest thousand.
pub open spec fn spec_bucket(problem_id: int) -> int {
    (problem_id / 1000) * 1000
}

/// The test-case directory convention: bucket directory, problem directory,
/// `testcases`.
pub open spec fn spec_testcase_dir(problem_id: int) -> Seq<char> {
    "./problems/"@ + spec_bucket_name(spec_bucket(problem_id) as nat) + "/"@ + spec_decimal(
        problem_id as nat,
    ) + "/testcases"@
}

/// The per-run workspace directory: a fixed prefix plus the session id.
pub open spec fn spec_workspace_dir(session_id: Seq<char>) -> Seq<char> {
    "/tmp/judge_"@ + session_id
}

/// Maps a language to its source file name; nothing for an unsupported
/// language.
pub fn source_file_name(language: &str) -> (r: Option<&'static str>)
    ensures
        match r {
            Some(n) => spec_supported_language(language@) && n@ == spec_source_file_name(
                language@,
            ),
            None => !spec_supported_language(language@),
        },
{
    if str_eq(language, "cpp") {
        Some("Main.cpp")
    } else if str_eq(language, "python") {
        Some("Main.py")
    } else if str_eq(language, "java") {
        Some("Main.java")
    } else {
        None
    }
}

/// Maps a language to its sandbox image; nothing for an unsupported
/// language.
pub fn docker_image(language: &str) -> (r: Option<&'static str>)
    ensures
        match r {
            Some(n) => spec_supported_language(language@) && n@ == spec_docker_image(language@),
            None => !spec_supported_language(language@),
        },
{
    if str_eq(language, "cpp") {
        Some("nekonic-judge-cpp:latest")
    } else if str_eq(language, "python") {
        Some("nekonic-judge-python:latest")
    } else if str_eq(language, "java") {
        Some("nekonic-judge-java:latest")
    } else {
        None
    }
}

/// Computes a problem's bucket number.
pub fn testcase_bucket(problem_id: u32) -> (r: u32)
    ensures
        r == spec_bucket(problem_id as int),
{
    (problem_id / 1000) * 1000
}

/// Builds the test-case directory path for a problem.
pub fn testcase_dir_path(problem_id: u32) -> (r: String)
    ensures
        r@ == spec_testcase_dir(problem_id as int),
{
    let mut r = String::from_str("./problems/");
    r.append(format_bucket(testcase_bucket(problem_id)).as_str());
    r.append("/");
    r.append(u32_to_string(problem_id).as_str());
    r.append("/testcases");
    r
}

/// Builds the workspace directory path for a session id.
pub fn workspace_dir_path(session_id: &str) -> (r: String)
    ensures
        r@ == spec_workspace_dir(session_id@),
{
    let mut r = String::from_str("/tmp/judge_");
    r.append(session_id);
    r
}

/// Relies on `uuid::Uuid::new_v4` and its `Display` form: a random
/// version-4 UUID rendered as 36 hyphenated lower-case hexadecimal
/// characters. The value is random; nothing but its length is assumed.
#[verifier::external_body]
fn fresh_session_id() -> (r: String)
    ensures
        r@.len() == 36,
{
    uuid::Uuid::new_v4().to_string()
}

/// One judging run in progress.
pub struct JudgeSession {
    pub request: JudgeRequest,
    pub session_id: String,
    pub state: SessionState,
    /// The session's workspace directory may exist on disk. Set when the
    /// workspace is first requested, cleared by cleanup; `Finished` is only
    /// reachable with this flag clear.
    pub workspace_live: bool,
}

impl JudgeSession {
    /// Internal consistency of a session: a finished session holds no
    /// workspace, a live workspace belongs to an unfinished session that
    /// got past language validation, and a session past validation has a
    /// supported language.
    pub open spec fn wf(self) -> bool {
        &&& (self.state matches SessionState::Finished { .. } ==> !self.workspace_live)
        &&& (self.state matches SessionState::AwaitingWorkspace ==> self.workspace_live)
        &&& (self.state matches SessionState::AwaitingRun ==> self.workspace_live)
        &&& (self.state matches SessionState::AwaitingCleanup { .. } ==> self.workspace_live)
        &&& (!(self.state matches SessionState::Finished { .. }) ==> spec_supported_language(
            self.request.language@,
        ))
    }

    /// The event the caller may report next in this state.
    pub open spec fn accepts(self, event: SessionEvent) -> bool {
        match self.state {
            SessionState::AwaitingWorkspace => event matches SessionEvent::WorkspaceReady
                || event matches SessionEvent::WorkspaceFailed { .. },
            SessionState::AwaitingRun => event matches SessionEvent::RunCompleted { .. }
                || event matches SessionEvent::RunFailed { .. },
            SessionState::AwaitingCleanup { .. } => event matches SessionEvent::CleanupDone,
            SessionState::Finished { .. } => false,
        }
    }

    /// Opens a session for one request. An unsupported language is rejected
    /// here, before any filesystem or isolation resource is requested; a
    /// supported one gets a fresh, collision-free workspace to create.
    pub fn start(request: JudgeRequest) -> (r: (JudgeSession, SessionAction))
        ensures
            r.0.wf(),
            r.0.request.submission_id == request.submission_id,
            r.0.request.language@ == request.language@,
            r.0.request.source_code@ == request.source_code@,
            r.0.request.problem_id == request.problem_id,
            spec_supported_language(request.language@) ==> {
                &&& r.0.state matches SessionState::AwaitingWorkspace
                &&& r.0.workspace_live
                &&& (r.1 matches SessionAction::CreateWorkspace { dir, file_name, source }
                    && dir@ == spec_workspace_dir(r.0.session_id@) && file_name@
                    == spec_source_file_name(request.language@) && source@
                    == request.source_code@)
            },
            !spec_supported_language(request.language@) ==> {
                &&& (r.0.state matches SessionState::Finished { outcome: Err(e) } && (e
                    matches JudgeError::UnsupportedLanguage))
                &&& !r.0.workspace_live
                &&& r.1 matches SessionAction::Report
            },
    {
        let session_id = fresh_session_id();
        match source_file_name(request.language.as_str()) {
            Some(file_name) => {
                let dir = workspace_dir_path(session_id.as_str());
                let source = clone_string(&request.source_code);
                let session = JudgeSession {
                    request,
                    session_id,
                    state: SessionState::AwaitingWorkspace,
                    workspace_live: true,
                };
                (
                    session,
                    SessionAction::CreateWorkspace {
                        dir,
                        file_name: String::from_str(file_name),
                        source,
                    },
                )
            },
            None => {
                let session = JudgeSession {
                    request,
                    session_id,
                    state: SessionState::Finished {
                        outcome: Err(JudgeError::UnsupportedLanguage),
                    },
                    workspace_live: false,
                };
                (session, SessionAction::Report)
            },
        }
    }

    /// Advances the session by one reported event and yields the next
    /// action. Every path that decides an outcome passes through workspace
    /// removal before the session finishes.
    pub fn on_event(&mut self, event: SessionEvent) -> (action: SessionAction)
        requires
            old(self).wf(),
            old(self).accepts(event),
        ensures
            final(self).wf(),
            final(self).request == old(self).request,
            final(self).session_id == old(self).session_id,
            old(self).state matches SessionState::AwaitingWorkspace ==> (event
                matches SessionEvent::WorkspaceReady ==> {
                &&& final(self).state matches SessionState::AwaitingRun
                &&& (action matches SessionAction::RunSandbox {
                    image,
                    workspace_dir,
                    testcase_dir,
                    memory_limit_bytes,
                    cpu_quota,
                    timeout_seconds,
                    network_disabled,
                } && image@ == spec_docker_image(old(self).request.language@) && workspace_dir@
                    == spec_workspace_dir(old(self).session_id@) && testcase_dir@
                    == spec_testcase_dir(old(self).request.problem_id as int)
                    && memory_limit_bytes == 536870912i64 && cpu_quota == 100000i64
                    && timeout_seconds == 30u64 && network_disabled)
            }),
            old(self).state matches SessionState::AwaitingWorkspace ==> (event
                matches SessionEvent::WorkspaceFailed { message } ==> {
                &&& (final(self).state matches SessionState::AwaitingCleanup {
                    pending: Err(m),
                } && m == message)
                &&& (action matches SessionAction::RemoveWorkspace { dir } && dir@
                    == spec_workspace_dir(old(self).session_id@))
            }),
            old(self).state matches SessionState::AwaitingRun ==> (event
                matches SessionEvent::RunCompleted { stdout, stderr, completed_within_budget }
                ==> {
                &&& (final(self).state matches SessionState::AwaitingCleanup {
                    pending: Ok(v),
                } && verdict_matches_run(v, stdout@, stderr@, completed_within_budget))
                &&& (action matches SessionAction::RemoveWorkspace { dir } && dir@
                    == spec_workspace_dir(old(self).session_id@))
            }),
            old(self).state matches SessionState::AwaitingRun ==> (event
                matches SessionEvent::RunFailed { message } ==> {
                &&& (final(self).state matches SessionState::AwaitingCleanup {
                    pending: Err(m),
                } && m == message)
                &&& (action matches SessionAction::RemoveWorkspace { dir } && dir@
                    == spec_workspace_dir(old(self).session_id@))
            }),
            old(self).state matches SessionState::AwaitingCleanup { pending } ==> (event
                matches SessionEvent::CleanupDone ==> {
                &&& !final(self).workspace_live
                &&& (pending matches Ok(v) ==> (final(self).state
                    matches SessionState::Finished { outcome: Ok(v2) } && v2 == v))
                &&& (pending matches Err(m) ==> (final(self).state
                    matches SessionState::Finished { outcome: Err(e) } && (e
                    matches JudgeError::Infrastructure { message } && message == m)))
                &&& action matches SessionAction::Report
            }),
    {
        let mut state = SessionState::AwaitingWorkspace;
        core::mem::swap(&mut state, &mut self.state);
        match (state, event) {
            (SessionState::AwaitingWorkspace, SessionEvent::WorkspaceReady) => {
                self.state = SessionState::AwaitingRun;
                let image = match docker_image(self.request.language.as_str()) {
                    Some(i) => i,
                    None => "",  // unreachable: the language was validated at start
                };
                SessionAction::RunSandbox {
                    image: String::from_str(image),
                    workspace_dir: workspace_dir_path(self.session_id.as_str()),
                    testcase_dir: testcase_dir_path(self.request.problem_id),
                    memory_limit_bytes: 536870912,
                    cpu_quota: 100000,
                    timeout_seconds: 30,
                    network_disabled: true,
                }
            },
            (SessionState::AwaitingWorkspace, SessionEvent::WorkspaceFailed { message }) => {
                self.state = SessionState::AwaitingCleanup { pending: Err(message) };
                SessionAction::RemoveWorkspace {
                    dir: workspace_dir_path(self.session_id.as_str()),
                }
            },
            (
                SessionState::AwaitingRun,
                SessionEvent::RunCompleted { stdout, stderr, completed_within_budget },
            ) => {
                let verdict = parse_judge_result(
                    stdout.as_str(),
                    stderr.as_str(),
                    completed_within_budget,
                );
                self.state = SessionState::AwaitingCleanup { pending: Ok(verdict) };
                SessionAction::RemoveWorkspace {
                    dir: workspace_dir_path(self.session_id.as_str()),
                }
            },
            (SessionState::AwaitingRun, SessionEvent::RunFailed { message }) => {
                self.state = SessionState::AwaitingCleanup { pending: Err(message) };
                SessionAction::RemoveWorkspace {
                    dir: workspace_dir_path(self.session_id.as_str()),
                }
            },
            (SessionState::AwaitingCleanup { pending }, SessionEvent::CleanupDone) => {
                self.workspace_live = false;
                match pending {
                    Ok(v) => {
                        self.state = SessionState::Finished { outcome: Ok(v) };
                    },
                    Err(m) => {
                        self.state = SessionState::Finished {
                            outcome: Err(JudgeError::Infrastructure { message: m }),
                        };
                    },
                }
                SessionAction::Report
            },
            (s, _) => {
                // Excluded by the precondition; restore the state unchanged.
                self.state = s;
                SessionAction::Report
            },
        }
    }
}

/// Workspace cleanup invariant: a well-formed session that has finished no
/// longer holds its temporary workspace, on the success path and on every
/// error path alike — the only transition into `Finished` after a workspace
/// was requested is the one that follows its removal.
pub proof fn lemma_no_workspace_after_finish(s: JudgeSession)
    requires
        s.wf(),
        s.state matches SessionState::Finished { .. },
    ensures
        !s.workspace_live,
{
}

} // verus!
