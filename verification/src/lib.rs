//! Core of a minimal interactive process debugger: an abstraction over a
//! kernel tracing facility (attach, memory patch, resume, state capture,
//! detach), breakpoint bookkeeping layered on top of it, and an error
//! taxonomy that keeps every failure mode at this boundary distinguishable.
//!
//! The interactive command loop, argument parsing, process spawning and
//! output formatting are external collaborators and live outside this
//! library.

pub mod debug_service;
pub mod error;
pub mod process;
pub mod process_info;
pub mod sim;
pub mod unix;
