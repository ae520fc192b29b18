//! The fixed settings of the service.

use vstd::prelude::*;

verus! {

/// The variable of the environment that holds the connection string of the
/// store. Without it the service does not start.
pub const DATABASE_URL: &'static str = "DATABASE_URL";

/// The most connections that the pool opens at a time. A request that finds
/// none free waits for one.
pub const MAX_CONNECTIONS: u32 = 20;

/// The address the service listens on.
pub const LISTEN_ADDRESS: &'static str = "0.0.0.0:3000";

} // verus!
