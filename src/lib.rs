//! Supervision of an external screen-capture / transcoding process:
//! argument vectors, the interruption protocol, the per-job lifecycle,
//! progress estimation from diagnostic text and artifact checks.
pub mod artifact;
pub mod cli;
pub mod command;
pub mod job;
pub mod progress;
pub mod session;
pub mod supervisor;
pub mod text;
