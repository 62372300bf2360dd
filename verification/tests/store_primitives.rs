use buffer_locks::limiter::ConnectionLimiter;
use buffer_locks::manager::{claim_outcome, is_stale, validate_lock_request};
use buffer_locks::store::{BufferId, LockRecord, LockStore, UserId};

#[test]
fn try_claim_is_claim_or_fail() {
    let mut s = LockStore::new();
    assert!(s.try_claim(BufferId(1), UserId(1), 10));
    assert!(!s.try_claim(BufferId(1), UserId(2), 11));
    assert!(!s.try_claim(BufferId(1), UserId(1), 12));
    // The losing claims changed nothing.
    assert_eq!(
        s.peek(BufferId(1)),
        Some(LockRecord {
            buffer_id: BufferId(1),
            holder: Some(UserId(1)),
            acquired_at: 10,
            last_heartbeat_at: 10,
        })
    );
    // An unrelated buffer is still free.
    assert!(s.try_claim(BufferId(2), UserId(2), 13));
}

#[test]
fn release_clears_only_for_the_holder() {
    let mut s = LockStore::new();
    assert!(s.try_claim(BufferId(1), UserId(1), 10));
    assert!(!s.release(BufferId(1), UserId(2)));
    assert_eq!(s.peek(BufferId(1)).unwrap().holder, Some(UserId(1)));
    assert!(s.release(BufferId(1), UserId(1)));
    let cleared = s.peek(BufferId(1)).unwrap();
    assert_eq!(cleared.holder, None);
    assert_eq!(cleared.acquired_at, 0);
    assert_eq!(cleared.last_heartbeat_at, 0);
    // A second release finds no holder.
    assert!(!s.release(BufferId(1), UserId(1)));
    // A cleared buffer can be claimed again.
    assert!(s.try_claim(BufferId(1), UserId(2), 20));
}

#[test]
fn renew_advances_freshness_only_for_the_holder() {
    let mut s = LockStore::new();
    assert!(s.try_claim(BufferId(1), UserId(1), 10));
    assert!(!s.renew(BufferId(1), UserId(2), 50));
    assert_eq!(s.peek(BufferId(1)).unwrap().last_heartbeat_at, 10);
    assert!(s.renew(BufferId(1), UserId(1), 50));
    assert_eq!(s.peek(BufferId(1)).unwrap().last_heartbeat_at, 50);
    // Never backwards.
    assert!(s.renew(BufferId(1), UserId(1), 30));
    assert_eq!(s.peek(BufferId(1)).unwrap().last_heartbeat_at, 50);
    assert_eq!(s.peek(BufferId(1)).unwrap().acquired_at, 10);
}

#[test]
fn peek_reports_unknown_buffers_as_unlocked() {
    let s = LockStore::new();
    assert_eq!(s.peek(BufferId(42)), None);
}

#[test]
fn sweep_touches_only_expired_locks() {
    let mut s = LockStore::new();
    assert!(s.try_claim(BufferId(1), UserId(1), 100));
    assert!(s.try_claim(BufferId(2), UserId(2), 600));
    // At now=701 with threshold 600: buffer 1 is 601 ms stale (expired),
    // buffer 2 is 101 ms stale (live).
    assert_eq!(s.sweep_expired(701, 600), 1);
    assert_eq!(s.peek(BufferId(1)).unwrap().holder, None);
    assert_eq!(s.peek(BufferId(2)).unwrap().holder, Some(UserId(2)));
    // Nothing left to reclaim.
    assert_eq!(s.sweep_expired(701, 600), 0);
}

#[test]
fn limiter_admits_up_to_the_cap_per_user() {
    let mut l = ConnectionLimiter::new(2);
    assert!(l.try_admit(UserId(1)));
    assert!(l.try_admit(UserId(1)));
    assert!(!l.try_admit(UserId(1)));
    assert_eq!(l.active_connections(UserId(1)), 2);
    // Independent per user.
    assert!(l.try_admit(UserId(2)));
    assert_eq!(l.active_connections(UserId(2)), 1);
    l.release(UserId(1));
    assert_eq!(l.active_connections(UserId(1)), 1);
    assert!(l.try_admit(UserId(1)));
}

#[test]
fn limiter_with_zero_cap_admits_nobody() {
    let mut l = ConnectionLimiter::new(0);
    assert!(!l.try_admit(UserId(1)));
    assert_eq!(l.active_connections(UserId(1)), 0);
}

#[test]
fn limiter_release_without_connections_stays_at_zero() {
    let mut l = ConnectionLimiter::new(3);
    l.release(UserId(1));
    assert_eq!(l.active_connections(UserId(1)), 0);
}

#[test]
fn validation_order_is_size_then_cap() {
    let c = buffer_locks::config::LockConfig::default();
    assert_eq!(validate_lock_request(&c, 1024, 0), Ok(()));
    assert_eq!(
        validate_lock_request(&c, 10 * 1024 * 1024 + 1, 0),
        Err(buffer_locks::manager::LockError::BufferTooLarge)
    );
    assert_eq!(
        validate_lock_request(&c, 1024, 10),
        Err(buffer_locks::manager::LockError::ConnectionLimitExceeded)
    );
    // An oversized buffer is reported as such even for a capped user.
    assert_eq!(
        validate_lock_request(&c, 10 * 1024 * 1024 + 1, 10),
        Err(buffer_locks::manager::LockError::BufferTooLarge)
    );
}

#[test]
fn claim_outcome_maps_the_store_verdict() {
    let won = claim_outcome(true, BufferId(3), UserId(4), 77);
    assert_eq!(won.unwrap().acquired_at, 77);
    let lost = claim_outcome(false, BufferId(3), UserId(4), 77);
    assert_eq!(lost, Err(buffer_locks::manager::LockError::BufferLocked));
}

#[test]
fn staleness_is_strictly_beyond_the_threshold() {
    assert!(!is_stale(1000, 1600, 600));
    assert!(is_stale(1000, 1601, 600));
    // A clock that ran backwards never counts as stale.
    assert!(!is_stale(1000, 900, 600));
}
