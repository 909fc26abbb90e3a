//! Peak resident-memory profiling library.
//!
//! The library holds the verified core of a small profiling tool: a peak
//! tracker that reduces memory samples to a running maximum, a sampling
//! coordinator modelled as a state machine, two measurement backends that
//! turn raw per-process memory text into kilobyte samples, and a
//! command-line configuration parser. Process spawning, threads and file
//! reads live outside the library and hand it plain bytes and integers.

pub mod config;
pub mod coordinator;
pub mod parse;
pub mod peak;
pub mod report;
pub mod statm;
