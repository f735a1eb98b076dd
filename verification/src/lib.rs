//! A job-control engine for an interactive command shell.
//!
//! The library keeps the authoritative table of live child processes
//! (`jobs`), decides how the table changes in response to asynchronous
//! process-state events and to the `jobs`/`bg`/`fg` built-ins, and renders
//! the operator-visible listing and notices.  Process creation, signal
//! delivery and the event queue live outside the library; they hand plain
//! values (pids, signal numbers, command text) in and carry the decided
//! actions out.

pub mod builtins;
pub mod engine;
pub mod jobs;
pub mod parse;
pub mod render;
pub mod waiter;

pub use jobs::{Job, JobManager, States};
