use vstd::prelude::*;

use crate::dur::{dur_add, dur_sub, sat_add, sat_sub};

verus! {

/// The overall stopwatch: one goal, a running flag, and an accumulator of
/// elapsed milliseconds that excludes paused intervals.
///
/// Monotonic instants come in as plain millisecond readings (`now`); wall
/// stamps as milliseconds since the Unix epoch.
pub struct SessionTimer {
    /// The main goal; `None` before the first start and after a reset.
    pub goal: Option<String>,
    /// Whether the timer is currently running.
    pub running: bool,
    /// Milliseconds accumulated over finished running segments.
    pub elapsed: u64,
    /// Monotonic reading at which the current running segment began;
    /// meaningful only while `running`.
    pub segment_start: u64,
    /// Wall stamp captured when the session was started, for the log.
    pub start_wall: u64,
}

impl SessionTimer {
    /// Total elapsed milliseconds at monotonic instant `now`: the frozen
    /// accumulator, plus the live segment while running.
    pub open spec fn total_at(self, now: int) -> int {
        if self.running {
            sat_add(self.elapsed as int, sat_sub(now, self.segment_start as int))
        } else {
            self.elapsed as int
        }
    }

    /// A fresh, idle timer with no goal.
    pub fn new() -> (t: Self)
        ensures
            t == (SessionTimer {
                goal: None,
                running: false,
                elapsed: 0,
                segment_start: 0,
                start_wall: 0,
            }),
    {
        SessionTimer { goal: None, running: false, elapsed: 0, segment_start: 0, start_wall: 0 }
    }

    /// Begin a fresh session: set the goal, zero the accumulator, and start
    /// running at `now`. Any earlier session is discarded.
    pub fn start(&mut self, goal: String, now: u64, wall: u64)
        ensures
            *final(self) == (SessionTimer {
                goal: Some(goal),
                running: true,
                elapsed: 0,
                segment_start: now,
                start_wall: wall,
            }),
            final(self).total_at(now as int) == 0,
    {
        self.goal = Some(goal);
        self.running = true;
        self.elapsed = 0;
        self.segment_start = now;
        self.start_wall = wall;
    }

    /// Pause: fold the live segment into the accumulator. A no-op when
    /// already paused, so elapsed time is never double-counted.
    pub fn stop(&mut self, now: u64)
        ensures
            final(self).goal == old(self).goal,
            final(self).start_wall == old(self).start_wall,
            !final(self).running,
            old(self).running ==> final(self).elapsed == old(self).total_at(now as int),
            !old(self).running ==> *final(self) == *old(self),
            final(self).total_at(now as int) == old(self).total_at(now as int),
    {
        if self.running {
            self.elapsed = dur_add(self.elapsed, dur_sub(now, self.segment_start));
            self.running = false;
        }
    }

    /// Resume after a pause: open a new segment at `now`. A no-op while
    /// already running, so elapsed time is never double-counted.
    pub fn resume(&mut self, now: u64)
        ensures
            final(self).goal == old(self).goal,
            final(self).start_wall == old(self).start_wall,
            final(self).elapsed == old(self).elapsed,
            final(self).running,
            !old(self).running ==> final(self).segment_start == now,
            old(self).running ==> *final(self) == *old(self),
            final(self).total_at(now as int) == old(self).total_at(now as int),
    {
        if !self.running {
            self.segment_start = now;
            self.running = true;
        }
    }

    /// Clear the session: no goal, nothing elapsed, not running.
    pub fn reset(&mut self)
        ensures
            *final(self) == (SessionTimer {
                goal: None,
                running: false,
                elapsed: 0,
                segment_start: 0,
                start_wall: 0,
            }),
    {
        self.goal = None;
        self.running = false;
        self.elapsed = 0;
        self.segment_start = 0;
        self.start_wall = 0;
    }

    /// Total elapsed milliseconds at `now`; a pure query.
    pub fn total_elapsed(&self, now: u64) -> (r: u64)
        ensures
            r as int == self.total_at(now as int),
    {
        if self.running {
            dur_add(self.elapsed, dur_sub(now, self.segment_start))
        } else {
            self.elapsed
        }
    }
}

/// While running, total elapsed time never decreases as the clock advances;
/// paused or running, it can only grow.
pub proof fn lemma_total_monotonic(t: SessionTimer, n1: int, n2: int)
    requires
        n1 <= n2,
    ensures
        t.total_at(n1) <= t.total_at(n2),
{
}

/// While paused, total elapsed time is frozen: every clock reading reports
/// the same value.
pub proof fn lemma_total_frozen_paused(t: SessionTimer, n1: int, n2: int)
    requires
        !t.running,
    ensures
        t.total_at(n1) == t.total_at(n2),
{
}

} // verus!
