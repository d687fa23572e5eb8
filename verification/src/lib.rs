//! Cooperative task-and-timer scheduling core for a program whose main loop
//! is driven by an external, callback-based host.
//!
//! The crate provides a task table and executor that poll suspended
//! computations only when the host wakes them, a time-ordered timeout queue
//! that tells the host when to next wake the program, and the startup
//! sequencing state machine that buffers and replays events while the
//! program's own asynchronous initialization is still in flight.
//!
//! Instants and durations are carried as plain nanosecond counts; the host
//! glue converts them to and from its own clock and supplies the current
//! time to the operations that need it.

pub mod app;
pub mod conditional_execution;
pub mod init;
pub mod norm_path;
pub mod runtime;
pub mod timer;
