//! Supervision core for a single long-running sidecar process.
//!
//! The library computes the platform working directory for the child,
//! builds the spawn specification (environment injection included),
//! classifies the child's output events, and fans every captured line
//! out to two sinks: an append-only log and a live event stream.
//! All I/O (file writes, process spawning, channel plumbing) is left to
//! the host application; the logic that decides what is written, emitted
//! and injected lives here, verified.

pub mod decode;
pub mod emitter;
pub mod log_sink;
pub mod multiplexer;
pub mod path_resolver;
pub mod session;
pub mod supervisor;
