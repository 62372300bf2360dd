use buffer_locks::sweep::SweepTask;

#[test]
fn sweep_task_is_never_due_before_start() {
    let t = SweepTask::new(30000);
    assert!(!t.running);
    assert!(!t.due(0));
    assert!(!t.due(u64::MAX));
}

#[test]
fn sweep_task_falls_due_one_interval_after_start() {
    let mut t = SweepTask::new(30000);
    t.start(1000);
    assert!(!t.due(1000));
    assert!(!t.due(30999));
    assert!(t.due(31000));
    assert!(t.due(99999));
}

#[test]
fn sweep_task_reschedules_after_a_pass_and_stops_cleanly() {
    let mut t = SweepTask::new(30000);
    t.start(1000);
    assert!(t.due(31000));
    t.mark_ran(31000);
    assert!(!t.due(31001));
    assert!(t.due(61000));
    t.stop();
    assert!(!t.due(61000));
    // Restarting schedules from the restart time, not the old one.
    t.start(100000);
    assert!(!t.due(100001));
    assert!(t.due(130000));
}
