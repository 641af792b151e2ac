use vstd::prelude::*;

use crate::units::{TickType, Ticks};

verus! {

/// Ticks from `since` to `now` on the kernel's tick counter, which wraps
/// around after `TickType::MAX`.
pub open spec fn elapsed_ticks(since: TickType, now: TickType) -> int {
    if now >= since {
        now - since
    } else {
        now + 0x1_0000_0000 - since
    }
}

fn ticks_since(since: TickType, now: TickType) -> (r: TickType)
    ensures
        r == elapsed_ticks(since, now),
{
    if now >= since {
        now - since
    } else {
        (TickType::MAX - since) + now + 1
    }
}

/// Delays the current task by a duration, minus the time spent since the
/// last wake-up.
pub struct TaskDelay {
    last_wake_time: TickType,
}

impl TaskDelay {
    /// The tick of the last wake-up.
    pub closed spec fn last_wake(&self) -> TickType {
        self.last_wake_time
    }

    /// Create a new helper, marking `now`, the current tick count, as the
    /// start of the next measurement.
    pub fn new(now: TickType) -> (r: TaskDelay)
        ensures
            r.last_wake() == now,
    {
        TaskDelay { last_wake_time: now }
    }

    /// The tick of the last wake-up, to hand to the kernel's delay-until
    /// operation.
    pub fn last_wake_time(&self) -> (r: TickType)
        ensures
            r == self.last_wake(),
    {
        self.last_wake_time
    }

    /// Records the wake-up tick that the kernel's delay-until operation
    /// wrote back.
    pub fn woke_at(&mut self, wake_time: TickType)
        ensures
            final(self).last_wake() == wake_time,
    {
        self.last_wake_time = wake_time;
    }
}

/// Periodic delay timer, for polling loops: `should_run` answers true once
/// the period has elapsed, and then starts the next period.
pub struct TaskDelayPeriodic {
    last_wake_time: TickType,
    period_ticks: TickType,
}

impl TaskDelayPeriodic {
    /// The tick at which the current period started.
    pub closed spec fn last_wake(&self) -> TickType {
        self.last_wake_time
    }

    /// The period, in ticks.
    pub closed spec fn period(&self) -> TickType {
        self.period_ticks
    }

    /// Create a new timer with the set period, starting at `now`, the current
    /// tick count.
    pub fn new(period: Ticks, now: TickType) -> (r: TaskDelayPeriodic)
        ensures
            r.last_wake() == now,
            r.period() == period.ticks,
    {
        TaskDelayPeriodic { last_wake_time: now, period_ticks: period.ticks }
    }

    /// Has the set period passed at tick `now`? If it has, the next period
    /// starts at `now`.
    pub fn should_run(&mut self, now: TickType) -> (r: bool)
        ensures
            r == (elapsed_ticks(old(self).last_wake(), now) >= old(self).period()),
            final(self).period() == old(self).period(),
            final(self).last_wake() == if r {
                now
            } else {
                old(self).last_wake()
            },
    {
        if ticks_since(self.last_wake_time, now) < self.period_ticks {
            false
        } else {
            self.last_wake_time = now;
            true
        }
    }

    /// Set a new delay period.
    pub fn set_period(&mut self, period: Ticks)
        ensures
            final(self).period() == period.ticks,
            final(self).last_wake() == old(self).last_wake(),
    {
        self.period_ticks = period.ticks;
    }

    /// Restart the current period at `now`, the current tick count.
    pub fn reset(&mut self, now: TickType)
        ensures
            final(self).last_wake() == now,
            final(self).period() == old(self).period(),
    {
        self.last_wake_time = now;
    }
}

} // verus!
