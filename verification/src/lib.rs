//! A bounded lifecycle check for one MCP stdio server.
//!
//! The library holds every decision that the guard makes: which option sets are
//! accepted, which step of the lifecycle comes next given what has been observed
//! of the child process, how an `initialize` response frame is judged, how the
//! final report is assembled and shown, and how command-line values are read.
//! The program around it performs the process, pipe and clock work that each
//! step asks for.

pub mod cli;
pub mod guarantees;
pub mod handshake;
pub mod lifecycle;
pub mod options;
pub mod polling;
pub mod report;
pub mod signals;
pub mod text;

pub use handshake::{judge_frame, validate_initialize_response};
pub use lifecycle::{run, Action, Event, GuardState};
pub use options::{
    GuardOptions, TimeSpan, MAX_CLEANUP_NANOS, MAX_HANDSHAKE_BYTES, MAX_TIMEOUT_NANOS,
};
pub use report::{exit_status, Cleanup, GuardError, GuardReport, Handshake, Outcome, Verdict};
