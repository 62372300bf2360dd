//! Scheduling of the periodic expiry sweep.
//!
//! The sweep runs off the request path, as a task with an explicit
//! lifecycle: it is started, asked when it is due, marked as run, and
//! stopped — never a free-running thread without a shutdown path.  The
//! surrounding plumbing supplies the clock and performs the sweep itself;
//! every scheduling decision is made here.

use vstd::prelude::*;

verus! {

/// Lifecycle and schedule of the periodic expiry sweep.
#[derive(Clone, Copy, PartialEq, Eq, Structural, Debug)]
pub struct SweepTask {
    /// Milliseconds between sweep passes, normally the heartbeat interval.
    pub interval_ms: u64,
    /// Whether the task has been started and not yet stopped.
    pub running: bool,
    /// When the last pass ran (or when the task started, before any pass).
    pub last_run: u64,
}

impl SweepTask {
    /// Whether a pass is owed at time `now`: the task is running and a full
    /// interval has gone by since the last pass.
    pub open spec fn is_due(self, now: u64) -> bool {
        self.running && now >= self.last_run && now - self.last_run >= self.interval_ms
    }

    /// A new task, not yet started.
    pub fn new(interval_ms: u64) -> (t: SweepTask)
        ensures
            t.interval_ms == interval_ms,
            !t.running,
            t.last_run == 0,
    {
        SweepTask { interval_ms, running: false, last_run: 0 }
    }

    /// Starts the task at time `now`; the first pass falls due one interval
    /// later.
    pub fn start(&mut self, now: u64)
        ensures
            final(self).running,
            final(self).last_run == now,
            final(self).interval_ms == old(self).interval_ms,
    {
        self.running = true;
        self.last_run = now;
    }

    /// Stops the task; no further pass falls due until it is started again.
    pub fn stop(&mut self)
        ensures
            !final(self).running,
            final(self).last_run == old(self).last_run,
            final(self).interval_ms == old(self).interval_ms,
    {
        self.running = false;
    }

    /// Whether a pass is owed at time `now`.
    pub fn due(&self, now: u64) -> (r: bool)
        ensures
            r == self.is_due(now),
    {
        self.running && now >= self.last_run && now - self.last_run >= self.interval_ms
    }

    /// Records that a pass ran at time `now`; the next falls due one
    /// interval later.  A stopped task stays stopped.
    pub fn mark_ran(&mut self, now: u64)
        ensures
            final(self).running == old(self).running,
            final(self).last_run == now,
            final(self).interval_ms == old(self).interval_ms,
            !final(self).is_due(now) || final(self).interval_ms == 0,
    {
        self.last_run = now;
    }
}

} // verus!
