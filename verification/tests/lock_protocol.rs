use buffer_locks::config::{
    LockConfig, BUFFER_LOCK_TIMEOUT_MS, LOCK_EXPIRY_HEARTBEAT_MULTIPLE, MAX_BUFFER_SIZE,
    MAX_CONNECTIONS_PER_USER, PRESENCE_HEARTBEAT_MS,
};
use buffer_locks::manager::{Buffer, LockError, LockManager, LockTicket};
use buffer_locks::store::{BufferId, LockRecord, UserId};

fn manager() -> LockManager {
    LockManager::new(LockConfig::default())
}

#[test]
fn default_config_values() {
    let c = LockConfig::default();
    assert_eq!(c.max_buffer_size, 10 * 1024 * 1024);
    assert_eq!(c.max_connections_per_user, 10);
    assert_eq!(c.heartbeat_interval_ms, 30000);
    assert_eq!(c.lock_timeout_ms, 100);
    assert_eq!(c.expiry_threshold_ms, 90000);
    assert_eq!(MAX_BUFFER_SIZE, 10 * 1024 * 1024);
    assert_eq!(MAX_CONNECTIONS_PER_USER, 10);
    assert_eq!(PRESENCE_HEARTBEAT_MS, 30000);
    assert_eq!(BUFFER_LOCK_TIMEOUT_MS, 100);
    assert_eq!(LOCK_EXPIRY_HEARTBEAT_MULTIPLE, 3);
}

#[test]
fn acquire_grants_ticket_and_records_holder() {
    let mut m = manager();
    let b = Buffer { id: BufferId(1), size: 1024 };
    let ticket = m.acquire_lock(b, UserId(7), 100).unwrap();
    assert_eq!(
        ticket,
        LockTicket { buffer_id: BufferId(1), holder: UserId(7), acquired_at: 100 }
    );
    let state = m.get_lock_state(BufferId(1)).unwrap();
    assert_eq!(
        state,
        LockRecord {
            buffer_id: BufferId(1),
            holder: Some(UserId(7)),
            acquired_at: 100,
            last_heartbeat_at: 100,
        }
    );
}

#[test]
fn contending_acquires_have_at_most_one_winner() {
    let mut m = manager();
    let b = Buffer { id: BufferId(1), size: 1024 };
    let first = m.acquire_lock(b, UserId(1), 100);
    let second = m.acquire_lock(b, UserId(2), 100);
    assert!(first.is_ok());
    assert_eq!(second, Err(LockError::BufferLocked));
    // The holder itself cannot double-acquire either.
    let again = m.acquire_lock(b, UserId(1), 101);
    assert_eq!(again, Err(LockError::BufferLocked));
}

#[test]
fn release_hands_the_lock_to_the_next_acquirer() {
    let mut m = manager();
    let b = Buffer { id: BufferId(1), size: 1024 };
    assert!(m.acquire_lock(b, UserId(1), 100).is_ok());
    assert_eq!(m.release_lock(BufferId(1), UserId(1)), Ok(()));
    let third = m.acquire_lock(b, UserId(2), 200);
    assert_eq!(
        third,
        Ok(LockTicket { buffer_id: BufferId(1), holder: UserId(2), acquired_at: 200 })
    );
}

#[test]
fn release_by_non_holder_is_rejected_and_changes_nothing() {
    let mut m = manager();
    let b = Buffer { id: BufferId(1), size: 1024 };
    assert!(m.acquire_lock(b, UserId(1), 100).is_ok());
    let before = m.get_lock_state(BufferId(1));
    assert_eq!(m.release_lock(BufferId(1), UserId(2)), Err(LockError::NotHolder));
    assert_eq!(m.get_lock_state(BufferId(1)), before);
    // Releasing a buffer that was never locked is likewise NotHolder.
    assert_eq!(m.release_lock(BufferId(9), UserId(1)), Err(LockError::NotHolder));
}

#[test]
fn sweep_reclaims_abandoned_lock_and_frees_the_buffer() {
    let mut m = manager();
    let b = Buffer { id: BufferId(1), size: 1024 };
    assert!(m.acquire_lock(b, UserId(1), 1000).is_ok());
    // Silent for longer than the expiry threshold (90000 ms by default).
    let reclaimed = m.sweep_expired_locks(1000 + 90001);
    assert_eq!(reclaimed, 1);
    let state = m.get_lock_state(BufferId(1)).unwrap();
    assert_eq!(state.holder, None);
    let next = m.acquire_lock(b, UserId(2), 1000 + 90002);
    assert!(next.is_ok());
}

#[test]
fn sweep_spares_a_lock_exactly_at_the_threshold() {
    let mut m = manager();
    let b = Buffer { id: BufferId(1), size: 1024 };
    assert!(m.acquire_lock(b, UserId(1), 1000).is_ok());
    // now - last_heartbeat_at == threshold: not yet expired.
    let reclaimed = m.sweep_expired_locks(1000 + 90000);
    assert_eq!(reclaimed, 0);
    assert_eq!(m.get_lock_state(BufferId(1)).unwrap().holder, Some(UserId(1)));
}

#[test]
fn heartbeat_keeps_a_lock_out_of_the_sweep() {
    let mut m = manager();
    let b = Buffer { id: BufferId(1), size: 1024 };
    assert!(m.acquire_lock(b, UserId(1), 1000).is_ok());
    assert_eq!(m.heartbeat(BufferId(1), UserId(1), 50000), Ok(()));
    let state = m.get_lock_state(BufferId(1)).unwrap();
    assert_eq!(state.acquired_at, 1000);
    assert_eq!(state.last_heartbeat_at, 50000);
    // 1000 + 90001 would have reclaimed the un-renewed lock; not any more.
    assert_eq!(m.sweep_expired_locks(1000 + 90001), 0);
    assert_eq!(m.get_lock_state(BufferId(1)).unwrap().holder, Some(UserId(1)));
}

#[test]
fn heartbeat_by_non_holder_is_rejected() {
    let mut m = manager();
    let b = Buffer { id: BufferId(1), size: 1024 };
    assert!(m.acquire_lock(b, UserId(1), 1000).is_ok());
    assert_eq!(m.heartbeat(BufferId(1), UserId(2), 2000), Err(LockError::NotHolder));
    assert_eq!(m.heartbeat(BufferId(9), UserId(1), 2000), Err(LockError::NotHolder));
    assert_eq!(m.get_lock_state(BufferId(1)).unwrap().last_heartbeat_at, 1000);
}

#[test]
fn heartbeat_never_moves_freshness_backwards() {
    let mut m = manager();
    let b = Buffer { id: BufferId(1), size: 1024 };
    assert!(m.acquire_lock(b, UserId(1), 5000).is_ok());
    assert_eq!(m.heartbeat(BufferId(1), UserId(1), 4000), Ok(()));
    assert_eq!(m.get_lock_state(BufferId(1)).unwrap().last_heartbeat_at, 5000);
}

#[test]
fn sweep_counts_every_abandoned_lock() {
    let mut m = manager();
    for i in 0..4u64 {
        let b = Buffer { id: BufferId(i), size: 64 };
        assert!(m.acquire_lock(b, UserId(i), 1000).is_ok());
    }
    // Two holders stay live, two go silent.
    assert_eq!(m.heartbeat(BufferId(0), UserId(0), 80000), Ok(()));
    assert_eq!(m.heartbeat(BufferId(2), UserId(2), 80000), Ok(()));
    let reclaimed = m.sweep_expired_locks(1000 + 90001);
    assert_eq!(reclaimed, 2);
    assert_eq!(m.get_lock_state(BufferId(0)).unwrap().holder, Some(UserId(0)));
    assert_eq!(m.get_lock_state(BufferId(1)).unwrap().holder, None);
    assert_eq!(m.get_lock_state(BufferId(2)).unwrap().holder, Some(UserId(2)));
    assert_eq!(m.get_lock_state(BufferId(3)).unwrap().holder, None);
}

#[test]
fn buffer_at_the_size_limit_is_lockable_one_byte_over_is_not() {
    let mut m = manager();
    let at_limit = Buffer { id: BufferId(1), size: 10 * 1024 * 1024 };
    assert!(m.acquire_lock(at_limit, UserId(1), 100).is_ok());

    let over = Buffer { id: BufferId(2), size: 10 * 1024 * 1024 + 1 };
    assert_eq!(m.acquire_lock(over, UserId(1), 100), Err(LockError::BufferTooLarge));
    assert_eq!(m.get_lock_state(BufferId(2)), None);
}

#[test]
fn connection_cap_refuses_the_eleventh_and_recovers_after_a_disconnect() {
    let mut m = manager();
    for _ in 0..10 {
        assert_eq!(m.admit_connection(UserId(1)), Ok(()));
    }
    assert_eq!(m.admit_connection(UserId(1)), Err(LockError::ConnectionLimitExceeded));
    // Another user is unaffected by the first one's cap.
    assert_eq!(m.admit_connection(UserId(2)), Ok(()));
    m.end_connection(UserId(1));
    assert_eq!(m.admit_connection(UserId(1)), Ok(()));
}

#[test]
fn user_at_the_connection_cap_cannot_acquire() {
    let mut m = manager();
    for _ in 0..10 {
        assert_eq!(m.admit_connection(UserId(1)), Ok(()));
    }
    let b = Buffer { id: BufferId(1), size: 1024 };
    assert_eq!(m.acquire_lock(b, UserId(1), 100), Err(LockError::ConnectionLimitExceeded));
    assert_eq!(m.get_lock_state(BufferId(1)), None);
    m.end_connection(UserId(1));
    assert!(m.acquire_lock(b, UserId(1), 100).is_ok());
}

#[test]
fn end_to_end_scenario() {
    let mut m = manager();
    let b1 = Buffer { id: BufferId(1), size: 1024 };
    let u1 = UserId(1);
    let u2 = UserId(2);

    let ticket = m.acquire_lock(b1, u1, 100).unwrap();
    assert_eq!(ticket.buffer_id, BufferId(1));
    assert_eq!(ticket.holder, u1);
    assert_eq!(m.get_lock_state(BufferId(1)).unwrap().holder, Some(u1));

    assert_eq!(m.acquire_lock(b1, u2, 150), Err(LockError::BufferLocked));

    assert_eq!(m.release_lock(BufferId(1), u1), Ok(()));
    assert_eq!(m.get_lock_state(BufferId(1)).unwrap().holder, None);

    let ticket2 = m.acquire_lock(b1, u2, 200).unwrap();
    assert_eq!(ticket2.holder, u2);
    assert_eq!(m.get_lock_state(BufferId(1)).unwrap().holder, Some(u2));
}

#[test]
fn error_values_are_distinct_and_comparable() {
    let all = [
        LockError::BufferLocked,
        LockError::NotHolder,
        LockError::BufferTooLarge,
        LockError::ConnectionLimitExceeded,
        LockError::StorageUnavailable,
    ];
    for (i, a) in all.iter().enumerate() {
        for (j, b) in all.iter().enumerate() {
            assert_eq!(a == b, i == j);
        }
    }
}
