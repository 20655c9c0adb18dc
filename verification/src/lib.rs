//! A mass TCP port scanner's decision logic: address generation, payload
//! resolution, the per-connection probe state machine, the result sink's
//! flush schedule and the admission control of the scan loop.
//!
//! Everything that touches a socket, a file or the clock is left to the
//! caller. The caller performs what the library asks for and hands back what
//! happened.

pub mod address;
pub mod conf;
pub mod orchestrator;
pub mod report;
pub mod scan;
pub mod text;
pub mod utils;

pub use crate::report::Response;
