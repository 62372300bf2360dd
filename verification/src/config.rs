//! Configuration for the lock service.

use vstd::prelude::*;

verus! {

/// Maximum time in milliseconds to wait for a single storage round trip
/// during acquire, release or renew before it is treated as an
/// infrastructure failure.
pub const BUFFER_LOCK_TIMEOUT_MS: u64 = 100;

/// Maximum number of concurrent connections per user.
pub const MAX_CONNECTIONS_PER_USER: u64 = 10;

/// Expected interval in milliseconds between heartbeats renewing a held lock.
pub const PRESENCE_HEARTBEAT_MS: u64 = 30000;

/// Maximum buffer size in bytes.
pub const MAX_BUFFER_SIZE: u64 = 10 * 1024 * 1024;

/// How many heartbeat intervals a holder may stay silent before its lock is
/// considered abandoned and becomes eligible for the expiry sweep.
pub const LOCK_EXPIRY_HEARTBEAT_MULTIPLE: u64 = 3;

/// The knobs of one lock-service deployment.
#[derive(Clone, Copy, PartialEq, Eq, Structural, Debug)]
pub struct LockConfig {
    /// Upper bound in bytes on the size of a buffer that may be locked.
    pub max_buffer_size: u64,
    /// Cap on concurrent connections per user.
    pub max_connections_per_user: u64,
    /// Expected milliseconds between heartbeats of a live holder.
    pub heartbeat_interval_ms: u64,
    /// Bound on one storage round trip before it counts as an infrastructure
    /// failure.  Policy for the storage edge; the in-memory transitions of
    /// this library never wait.
    pub lock_timeout_ms: u64,
    /// A held lock whose holder has been silent for longer than this many
    /// milliseconds is reclaimed by the sweep.
    pub expiry_threshold_ms: u64,
}

impl Default for LockConfig {
    /// The stock deployment: constants above, with the expiry threshold a
    /// small multiple of the heartbeat interval so that a holder may miss a
    /// few heartbeats before losing its lock.
    fn default() -> (c: LockConfig)
        ensures
            c.max_buffer_size == MAX_BUFFER_SIZE,
            c.max_connections_per_user == MAX_CONNECTIONS_PER_USER,
            c.heartbeat_interval_ms == PRESENCE_HEARTBEAT_MS,
            c.lock_timeout_ms == BUFFER_LOCK_TIMEOUT_MS,
            c.expiry_threshold_ms == LOCK_EXPIRY_HEARTBEAT_MULTIPLE * PRESENCE_HEARTBEAT_MS,
    {
        LockConfig {
            max_buffer_size: MAX_BUFFER_SIZE,
            max_connections_per_user: MAX_CONNECTIONS_PER_USER,
            heartbeat_interval_ms: PRESENCE_HEARTBEAT_MS,
            lock_timeout_ms: BUFFER_LOCK_TIMEOUT_MS,
            expiry_threshold_ms: LOCK_EXPIRY_HEARTBEAT_MULTIPLE * PRESENCE_HEARTBEAT_MS,
        }
    }
}

} // verus!
