//! Status codes returned across the host boundary.

use vstd::prelude::*;

verus! {

/// The session started and survived the grace window.
pub const CODE_SUCCESS: i32 = 0;
/// The domain or listen-host string could not be marshaled.
pub const CODE_INVALID_DOMAIN: i32 = -1;
/// The resolver configuration is empty or could not be read.
pub const CODE_INVALID_RESOLVERS: i32 = -2;
/// The resolver port array could not be read.
pub const CODE_PORTS_MARSHAL: i32 = -3;
/// A resolver host element could not be fetched.
pub const CODE_HOST_FETCH: i32 = -4;
/// A resolver host element could not be converted to a string.
pub const CODE_HOST_CONVERT: i32 = -5;
/// A resolver host string failed host/port parsing.
pub const CODE_RESOLVER_PARSE: i32 = -6;
/// The congestion-control string could not be marshaled.
pub const CODE_CONGESTION: i32 = -7;
/// A session is already running.
pub const CODE_ALREADY_RUNNING: i32 = -10;
/// The session thread exited within the startup grace window.
pub const CODE_STARTUP_FAILED: i32 = -11;
/// Any other failure.
pub const CODE_UNCLASSIFIED: i32 = -100;

} // verus!
