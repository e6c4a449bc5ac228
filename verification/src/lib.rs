//! Lifecycle control for a background tunnel engine: a write-once registry of
//! host-runtime handles, a single-session state machine with start/stop/status,
//! and the decision logic of a cross-thread socket-protection callback.

pub mod channel;
pub mod codes;
pub mod config;
pub mod host;
pub mod laws;
pub mod lifecycle;
pub mod protect;
pub mod registry;
