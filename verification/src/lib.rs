//! Core of an online-judge platform: classification of sandbox output into
//! verdicts, the judging session's workspace lifecycle, the submission state
//! machine, timestamp handling and ICPC-style contest standings.

pub mod classify;
pub mod lifecycle;
pub mod limits;
pub mod models;
pub mod scoring;
pub mod session;
pub mod standings;
pub mod status;
pub mod text;
pub mod timestamp;

pub use status::Status;
