//! The caller-facing lock manager.
//!
//! Validates each request — buffer size, connection cap — and then delegates
//! the decision that matters to one atomic transition of the
//! [`crate::store::LockStore`].  Contention is fail-fast: an acquisition
//! either wins immediately or returns [`LockError::BufferLocked`]; nothing
//! queues and nothing retries here.

use vstd::prelude::*;
use crate::config::LockConfig;
use crate::limiter::ConnectionLimiter;
use crate::store::{cleared_record, count_expired, rec_expired, BufferId, LockRecord, LockStore, UserId};

verus! {

/// A shared editable buffer: its identity and its size in bytes.  Lock
/// state lives in the store, never here.
#[derive(Clone, Copy, PartialEq, Eq, Structural, Debug)]
pub struct Buffer {
    pub id: BufferId,
    pub size: u64,
}

/// Proof of a successful acquisition, presented back on release and
/// heartbeat calls to authorize them.
#[derive(Clone, Copy, PartialEq, Eq, Structural, Debug)]
pub struct LockTicket {
    pub buffer_id: BufferId,
    pub holder: UserId,
    pub acquired_at: u64,
}

/// Every way a lock operation can fail, each a deterministic, typed outcome
/// returned directly to the caller.
#[derive(Clone, Copy, PartialEq, Eq, Structural, Debug)]
pub enum LockError {
    /// Contention: another user holds the lock.  Retryable by caller policy.
    BufferLocked,
    /// Release or heartbeat attempted by a non-holder; a logic error, not
    /// retried.
    NotHolder,
    /// Permanent validation failure: the buffer exceeds the size bound.
    BufferTooLarge,
    /// Capacity failure: the user is at the connection cap; may be retried
    /// after a connection frees.
    ConnectionLimitExceeded,
    /// Infrastructure failure of the backing store (such as a timed-out
    /// round trip); transient, never produced by the in-memory transitions.
    StorageUnavailable,
}

/// Policy gate run before any claim is attempted: a buffer over the size
/// bound is rejected outright, then a user at the connection cap.
pub fn validate_lock_request(config: &LockConfig, buffer_size: u64, active_connections: u64)
    -> (r: Result<(), LockError>)
    ensures
        r == (if buffer_size > config.max_buffer_size {
            Err::<(), LockError>(LockError::BufferTooLarge)
        } else if active_connections >= config.max_connections_per_user {
            Err::<(), LockError>(LockError::ConnectionLimitExceeded)
        } else {
            Ok::<(), LockError>(())
        }),
{
    if buffer_size > config.max_buffer_size {
        Err(LockError::BufferTooLarge)
    } else if active_connections >= config.max_connections_per_user {
        Err(LockError::ConnectionLimitExceeded)
    } else {
        Ok(())
    }
}

/// Turns the verdict of one atomic claim into the caller's outcome: a
/// ticket on the won claim, `BufferLocked` on the lost one.
pub fn claim_outcome(claimed: bool, buffer_id: BufferId, user: UserId, now: u64)
    -> (r: Result<LockTicket, LockError>)
    ensures
        r == (if claimed {
            Ok::<LockTicket, LockError>((LockTicket { buffer_id, holder: user, acquired_at: now }))
        } else {
            Err::<LockTicket, LockError>(LockError::BufferLocked)
        }),
{
    if claimed {
        Ok(LockTicket { buffer_id, holder: user, acquired_at: now })
    } else {
        Err(LockError::BufferLocked)
    }
}

/// Whether a lock last renewed at `last_heartbeat_at` counts as abandoned
/// at time `now`, under the given staleness threshold.
pub fn is_stale(last_heartbeat_at: u64, now: u64, threshold: u64) -> (r: bool)
    ensures
        r == (now >= last_heartbeat_at && now - last_heartbeat_at > threshold),
{
    now >= last_heartbeat_at && now - last_heartbeat_at > threshold
}

/// Orchestrates acquire, release, heartbeat and the expiry sweep over one
/// lock store and one connection limiter, under one configuration.
pub struct LockManager {
    pub store: LockStore,
    pub limiter: ConnectionLimiter,
    pub config: LockConfig,
}

impl LockManager {
    /// Well-formedness: both components are well formed and the limiter
    /// enforces exactly the configured cap.
    pub open spec fn wf(self) -> bool {
        &&& self.store.wf()
        &&& self.limiter.wf()
        &&& self.limiter.cap() == self.config.max_connections_per_user
    }

    /// The outcome `acquire_lock` owes for a given starting state: size
    /// validation, then the connection cap, then the claim — a ticket iff
    /// nobody holds the buffer.
    pub open spec fn acquire_result(self, buffer: Buffer, user: UserId, now: u64)
        -> Result<LockTicket, LockError> {
        if buffer.size > self.config.max_buffer_size {
            Err(LockError::BufferTooLarge)
        } else if self.limiter.count_of(user) >= self.config.max_connections_per_user {
            Err(LockError::ConnectionLimitExceeded)
        } else if self.store.holder_of(buffer.id) is Some {
            Err(LockError::BufferLocked)
        } else {
            Ok((LockTicket { buffer_id: buffer.id, holder: user, acquired_at: now }))
        }
    }

    /// Buffer `b`'s record after `acquire_lock(buffer, user, now)`: freshly
    /// held by `user` on the won claim, untouched everywhere else.
    pub open spec fn acquire_rec_after(self, buffer: Buffer, user: UserId, now: u64, b: BufferId)
        -> Option<LockRecord> {
        if self.acquire_result(buffer, user, now) is Ok && b == buffer.id {
            Some((LockRecord {
                buffer_id: b,
                holder: Some(user),
                acquired_at: now,
                last_heartbeat_at: now,
            }))
        } else {
            self.store.rec_of(b)
        }
    }

    /// The outcome `release_lock` owes: `Ok` iff the caller is the holder.
    pub open spec fn release_result(self, buffer_id: BufferId, user: UserId)
        -> Result<(), LockError> {
        if self.store.holder_of(buffer_id) == Some(user) {
            Ok(())
        } else {
            Err(LockError::NotHolder)
        }
    }

    /// Buffer `b`'s record after `release_lock(buffer_id, user)`: cleared on
    /// the accepted release, untouched everywhere else — in particular a
    /// non-holder's attempt changes nothing.
    pub open spec fn release_rec_after(self, buffer_id: BufferId, user: UserId, b: BufferId)
        -> Option<LockRecord> {
        if self.store.holder_of(buffer_id) == Some(user) && b == buffer_id {
            Some(cleared_record(buffer_id))
        } else {
            self.store.rec_of(b)
        }
    }

    /// The outcome `heartbeat` owes: `Ok` iff the caller is the holder.
    pub open spec fn heartbeat_result(self, buffer_id: BufferId, user: UserId)
        -> Result<(), LockError> {
        if self.store.holder_of(buffer_id) == Some(user) {
            Ok(())
        } else {
            Err(LockError::NotHolder)
        }
    }

    /// Buffer `b`'s record after `heartbeat(buffer_id, user, now)`: the
    /// holder's freshness advances to `now` (never backwards), everything
    /// else is untouched.
    pub open spec fn heartbeat_rec_after(self, buffer_id: BufferId, user: UserId, now: u64, b: BufferId)
        -> Option<LockRecord> {
        match self.store.rec_of(b) {
            Some(r) => if b == buffer_id && r.holder == Some(user) {
                Some((LockRecord {
                    buffer_id: b,
                    holder: Some(user),
                    acquired_at: r.acquired_at,
                    last_heartbeat_at: if now >= r.last_heartbeat_at { now } else { r.last_heartbeat_at },
                }))
            } else {
                Some(r)
            },
            None => None,
        }
    }

    /// Buffer `b`'s record after `sweep_expired_locks(now)`: cleared iff its
    /// holder outlived the configured expiry threshold.
    pub open spec fn sweep_rec_after(self, now: u64, b: BufferId) -> Option<LockRecord> {
        match self.store.rec_of(b) {
            Some(r) => if rec_expired(r, now, self.config.expiry_threshold_ms) {
                Some(cleared_record(b))
            } else {
                Some(r)
            },
            None => None,
        }
    }

    /// The outcome `admit_connection` owes: admitted iff below the cap.
    pub open spec fn admit_result(self, user: UserId) -> Result<(), LockError> {
        if self.limiter.count_of(user) < self.config.max_connections_per_user {
            Ok(())
        } else {
            Err(LockError::ConnectionLimitExceeded)
        }
    }

    /// A fresh manager over an empty store and an idle limiter.
    pub fn new(config: LockConfig) -> (m: LockManager)
        ensures
            m.wf(),
            m.config == config,
            forall|b: BufferId| #[trigger] m.store.rec_of(b) is None,
            forall|u: UserId| #[trigger] m.limiter.count_of(u) == 0,
    {
        LockManager {
            store: LockStore::new(),
            limiter: ConnectionLimiter::new(config.max_connections_per_user),
            config,
        }
    }

    /// Acquires the lock on `buffer` for `user` at time `now`, or says
    /// exactly why not.  The availability test and the claim are one atomic
    /// store transition, so of any number of contending calls on a free
    /// buffer exactly one receives a ticket.  Failures return immediately;
    /// the caller decides whether to retry.
    pub fn acquire_lock(&mut self, buffer: Buffer, user: UserId, now: u64)
        -> (r: Result<LockTicket, LockError>)
        requires
            old(self).wf(),
        ensures
            final(self).wf(),
            final(self).config == old(self).config,
            final(self).limiter == old(self).limiter,
            r == old(self).acquire_result(buffer, user, now),
            forall|b: BufferId|
                #[trigger] final(self).store.rec_of(b) == old(self).acquire_rec_after(buffer, user, now, b),
    {
        let active = self.limiter.active_connections(user);
        match validate_lock_request(&self.config, buffer.size, active) {
            Err(e) => Err(e),
            Ok(()) => {
                let claimed = self.store.try_claim(buffer.id, user, now);
                claim_outcome(claimed, buffer.id, user, now)
            },
        }
    }

    /// Releases the lock on `buffer_id` if `user` holds it; a non-holder
    /// gets [`LockError::NotHolder`] and changes nothing.
    pub fn release_lock(&mut self, buffer_id: BufferId, user: UserId) -> (r: Result<(), LockError>)
        requires
            old(self).wf(),
        ensures
            final(self).wf(),
            final(self).config == old(self).config,
            final(self).limiter == old(self).limiter,
            r == old(self).release_result(buffer_id, user),
            forall|b: BufferId|
                #[trigger] final(self).store.rec_of(b) == old(self).release_rec_after(buffer_id, user, b),
    {
        let released = self.store.release(buffer_id, user);
        if released {
            Ok(())
        } else {
            Err(LockError::NotHolder)
        }
    }

    /// Renews the lock on `buffer_id` if `user` holds it, keeping it out of
    /// the expiry sweep's reach; a non-holder gets
    /// [`LockError::NotHolder`] and changes nothing.
    pub fn heartbeat(&mut self, buffer_id: BufferId, user: UserId, now: u64)
        -> (r: Result<(), LockError>)
        requires
            old(self).wf(),
        ensures
            final(self).wf(),
            final(self).config == old(self).config,
            final(self).limiter == old(self).limiter,
            r == old(self).heartbeat_result(buffer_id, user),
            forall|b: BufferId|
                #[trigger] final(self).store.rec_of(b) == old(self).heartbeat_rec_after(buffer_id, user, now, b),
    {
        let renewed = self.store.renew(buffer_id, user, now);
        if renewed {
            Ok(())
        } else {
            Err(LockError::NotHolder)
        }
    }

    /// Reclaims every lock whose holder has been silent for longer than the
    /// configured expiry threshold and returns how many were reclaimed.
    pub fn sweep_expired_locks(&mut self, now: u64) -> (reclaimed: usize)
        requires
            old(self).wf(),
        ensures
            final(self).wf(),
            final(self).config == old(self).config,
            final(self).limiter == old(self).limiter,
            reclaimed == count_expired(old(self).store@, now, old(self).config.expiry_threshold_ms),
            forall|b: BufferId|
                #[trigger] final(self).store.rec_of(b) == old(self).sweep_rec_after(now, b),
    {
        let threshold = self.config.expiry_threshold_ms;
        self.store.sweep_expired(now, threshold)
    }

    /// Read-only lock state of one buffer, for display only: its result must
    /// never gate an acquisition decision.
    pub fn get_lock_state(&self, buffer_id: BufferId) -> (r: Option<LockRecord>)
        ensures
            r == self.store.rec_of(buffer_id),
    {
        self.store.peek(buffer_id)
    }

    /// Admits one more connection of `user` unless the cap is reached.
    pub fn admit_connection(&mut self, user: UserId) -> (r: Result<(), LockError>)
        requires
            old(self).wf(),
        ensures
            final(self).wf(),
            final(self).config == old(self).config,
            final(self).store == old(self).store,
            r == old(self).admit_result(user),
            r is Ok ==> final(self).limiter.count_of(user) == old(self).limiter.count_of(user) + 1,
            r is Err ==> final(self).limiter.count_of(user) == old(self).limiter.count_of(user),
            forall|v: UserId|
                v != user ==> #[trigger] final(self).limiter.count_of(v) == old(self).limiter.count_of(v),
    {
        let admitted = self.limiter.try_admit(user);
        if admitted {
            Ok(())
        } else {
            Err(LockError::ConnectionLimitExceeded)
        }
    }

    /// Records one disconnect of `user`, freeing a slot under the cap.
    pub fn end_connection(&mut self, user: UserId)
        requires
            old(self).wf(),
        ensures
            final(self).wf(),
            final(self).config == old(self).config,
            final(self).store == old(self).store,
            final(self).limiter.count_of(user) == (if old(self).limiter.count_of(user) > 0 {
                old(self).limiter.count_of(user) - 1
            } else {
                0
            }),
            forall|v: UserId|
                v != user ==> #[trigger] final(self).limiter.count_of(v) == old(self).limiter.count_of(v),
    {
        self.limiter.release(user);
    }
}

} // verus!
