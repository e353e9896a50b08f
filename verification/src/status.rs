//! The submission status enumeration and its textual encoding.
//!
//! The database stores statuses as upper-case strings; the library works with
//! a closed enumeration so that every verdict is one of the known values.

use vstd::prelude::*;

verus! {

/// Lifecycle status of a submission. `Pending` and `Judging` are
/// non-terminal; the other six values are terminal verdicts.
#[derive(Clone, Copy, Debug, PartialEq, Eq, Structural)]
pub enum Status {
    Pending,
    Judging,
    Accepted,
    WrongAnswer,
    CompilationError,
    RuntimeError,
    TimeLimitExceeded,
    SystemError,
}

impl Status {
    /// A terminal status ends the submission's lifecycle; a submission in a
    /// terminal status is never judged again.
    pub open spec fn spec_is_terminal(self) -> bool {
        self != Status::Pending && self != Status::Judging
    }

    pub fn is_terminal(&self) -> (r: bool)
        ensures
            r == self.spec_is_terminal(),
    {
        !(*self == Status::Pending || *self == Status::Judging)
    }

    /// The upper-case name under which this status is persisted.
    pub open spec fn spec_name(self) -> Seq<char> {
        match self {
            Status::Pending => "PENDING"@,
            Status::Judging => "JUDGING"@,
            Status::Accepted => "ACCEPTED"@,
            Status::WrongAnswer => "WRONG_ANSWER"@,
            Status::CompilationError => "COMPILATION_ERROR"@,
            Status::RuntimeError => "RUNTIME_ERROR"@,
            Status::TimeLimitExceeded => "TIME_LIMIT_EXCEEDED"@,
            Status::SystemError => "SYSTEM_ERROR"@,
        }
    }

    /// The persisted name of this status, as written into the `status`
    /// columns of the submission and test-case tables.
    pub fn name(&self) -> (r: &'static str)
        ensures
            r@ == self.spec_name(),
    {
        match self {
            Status::Pending => "PENDING",
            Status::Judging => "JUDGING",
            Status::Accepted => "ACCEPTED",
            Status::WrongAnswer => "WRONG_ANSWER",
            Status::CompilationError => "COMPILATION_ERROR",
            Status::RuntimeError => "RUNTIME_ERROR",
            Status::TimeLimitExceeded => "TIME_LIMIT_EXCEEDED",
            Status::SystemError => "SYSTEM_ERROR",
        }
    }
}

} // verus!
