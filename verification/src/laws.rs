//! The protocol's guarantees, stated and proved once and for all states.
//!
//! Each lemma quantifies over manager states related by the transition
//! contracts of [`crate::manager::LockManager`]: a state `m1` is "after" an
//! operation on `m0` when its store satisfies, buffer by buffer, the
//! record-transformer that the operation's `ensures` establishes.

use vstd::prelude::*;
use crate::manager::{Buffer, LockError, LockManager, LockTicket};
use crate::store::{BufferId, UserId};

verus! {

/// Mutual exclusion: once an acquisition of `buffer` has succeeded, every
/// further acquisition of the same buffer fails until the lock is released
/// or reclaimed — whoever asks, whenever.  Of two contending acquisitions,
/// at most one returns success; a contender that passes validation is told
/// `BufferLocked` exactly.
pub proof fn lemma_acquire_mutual_exclusion(
    m0: LockManager,
    m1: LockManager,
    buffer: Buffer,
    u1: UserId,
    u2: UserId,
    t1: u64,
    t2: u64,
)
    requires
        m0.acquire_result(buffer, u1, t1) is Ok,
        m1.config == m0.config,
        m1.limiter == m0.limiter,
        forall|b: BufferId|
            #[trigger] m1.store.rec_of(b) == m0.acquire_rec_after(buffer, u1, t1, b),
    ensures
        !(m1.acquire_result(buffer, u2, t2) is Ok),
        m1.limiter.count_of(u2) < m1.config.max_connections_per_user
            ==> m1.acquire_result(buffer, u2, t2) == Err::<LockTicket, LockError>(LockError::BufferLocked),
{
    assert(m1.store.rec_of(buffer.id) == m0.acquire_rec_after(buffer, u1, t1, buffer.id));
    assert(m1.store.holder_of(buffer.id) == Some(u1));
}

/// Handover: after `u` acquires `buffer` and then releases it, a different
/// user `v` within its connection cap acquires it successfully — and the
/// release itself was accepted.
pub proof fn lemma_release_then_reacquire(
    m0: LockManager,
    m1: LockManager,
    m2: LockManager,
    buffer: Buffer,
    u: UserId,
    v: UserId,
    t0: u64,
    t2: u64,
)
    requires
        v != u,
        m0.acquire_result(buffer, u, t0) is Ok,
        m1.config == m0.config,
        m1.limiter == m0.limiter,
        forall|b: BufferId|
            #[trigger] m1.store.rec_of(b) == m0.acquire_rec_after(buffer, u, t0, b),
        m2.config == m1.config,
        m2.limiter == m1.limiter,
        forall|b: BufferId|
            #[trigger] m2.store.rec_of(b) == m1.release_rec_after(buffer.id, u, b),
        m2.limiter.count_of(v) < m2.config.max_connections_per_user,
    ensures
        m1.release_result(buffer.id, u) == Ok::<(), LockError>(()),
        m2.acquire_result(buffer, v, t2) is Ok,
{
    assert(m1.store.rec_of(buffer.id) == m0.acquire_rec_after(buffer, u, t0, buffer.id));
    assert(m1.store.holder_of(buffer.id) == Some(u));
    assert(m2.store.rec_of(buffer.id) == m1.release_rec_after(buffer.id, u, buffer.id));
    assert(m2.store.holder_of(buffer.id) is None);
}

/// A release by anyone but the current holder returns `NotHolder` and
/// leaves the lock state of every buffer unchanged.
pub proof fn lemma_release_by_non_holder(m: LockManager, buffer_id: BufferId, user: UserId)
    requires
        m.store.holder_of(buffer_id) != Some(user),
    ensures
        m.release_result(buffer_id, user) == Err::<(), LockError>(LockError::NotHolder),
        forall|b: BufferId| #[trigger] m.release_rec_after(buffer_id, user, b) == m.store.rec_of(b),
{
}

/// Abandonment recovery: a lock whose holder has been silent for longer
/// than the configured expiry threshold is reclaimed by the sweep, and a
/// subsequent acquisition of the buffer by a user within its connection cap
/// succeeds.
pub proof fn lemma_sweep_reclaims_abandoned(
    m0: LockManager,
    m1: LockManager,
    buffer: Buffer,
    u: UserId,
    v: UserId,
    now: u64,
    t2: u64,
)
    requires
        m0.store.rec_of(buffer.id) matches Some(r) && r.holder == Some(u)
            && now >= r.last_heartbeat_at
            && now - r.last_heartbeat_at > m0.config.expiry_threshold_ms,
        m1.config == m0.config,
        m1.limiter == m0.limiter,
        forall|b: BufferId| #[trigger] m1.store.rec_of(b) == m0.sweep_rec_after(now, b),
        buffer.size <= m0.config.max_buffer_size,
        m0.limiter.count_of(v) < m0.config.max_connections_per_user,
    ensures
        m1.store.holder_of(buffer.id) is None,
        m1.acquire_result(buffer, v, t2) is Ok,
{
    assert(m1.store.rec_of(buffer.id) == m0.sweep_rec_after(now, buffer.id));
}

/// The size bound is exact: a buffer exactly at the configured maximum is
/// never rejected for size — and is granted outright when it is free and
/// the user is within its cap — while a buffer even one byte over is
/// rejected with `BufferTooLarge`.
pub proof fn lemma_buffer_size_boundary(
    m: LockManager,
    at_limit: Buffer,
    over_limit: Buffer,
    u: UserId,
    now: u64,
)
    requires
        at_limit.size == m.config.max_buffer_size,
        over_limit.size > m.config.max_buffer_size,
    ensures
        m.acquire_result(at_limit, u, now) != Err::<LockTicket, LockError>(LockError::BufferTooLarge),
        m.store.holder_of(at_limit.id) is None
            && m.limiter.count_of(u) < m.config.max_connections_per_user
            ==> m.acquire_result(at_limit, u, now) is Ok,
        m.acquire_result(over_limit, u, now) == Err::<LockTicket, LockError>(LockError::BufferTooLarge),
{
}

/// The connection cap is exact: a user already holding the configured
/// maximum is refused a further admission with `ConnectionLimitExceeded`,
/// and after one of its connections ends, admission succeeds again.
pub proof fn lemma_connection_cap_recovery(m0: LockManager, m1: LockManager, u: UserId)
    requires
        m0.config.max_connections_per_user > 0,
        m0.limiter.count_of(u) == m0.config.max_connections_per_user,
        m1.config == m0.config,
        m1.limiter.count_of(u) == m0.limiter.count_of(u) - 1,
    ensures
        m0.admit_result(u) == Err::<(), LockError>(LockError::ConnectionLimitExceeded),
        m1.admit_result(u) == Ok::<(), LockError>(()),
{
}

} // verus!
