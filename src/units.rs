use vstd::prelude::*;

use crate::text::{decimal, push_decimal};

verus! {

/// The kernel's tick counter type.
pub type TickType = u32;

/// Scheduler tick rate of the kernel configuration, in ticks per second.
pub const TICK_RATE_HZ: u32 = 1000;

/// Length of one tick, in milliseconds.
pub const TICK_PERIOD_MS: u32 = 1000 / TICK_RATE_HZ;

/// The tick count that the kernel reads as "wait forever".
pub const MAX_DELAY: TickType = 0xffff_ffff;

/// A duration measured in scheduler ticks.
#[derive(Copy, Clone, Debug, PartialEq, Eq, Structural)]
pub struct Ticks {
    pub ticks: TickType,
}

/// Whole ticks in `ms` milliseconds, rounded down.
pub open spec fn ms_to_ticks(ms: int) -> int {
    ms / (TICK_PERIOD_MS as int)
}

/// Milliseconds in `ticks` ticks.
pub open spec fn ticks_to_ms(ticks: int) -> int {
    ticks * TICK_PERIOD_MS
}

impl Ticks {
    /// The duration of `ms` milliseconds, in whole ticks.
    pub open spec fn spec_milliseconds(ms: u32) -> Ticks {
        Ticks { ticks: ms_to_ticks(ms as int) as u32 }
    }

    pub fn new(ticks: TickType) -> (r: Ticks)
        ensures
            r.ticks == ticks,
    {
        Ticks { ticks }
    }

    /// The whole number of ticks in `ms` milliseconds, rounded down.
    pub fn milliseconds(ms: u32) -> (r: Ticks)
        ensures
            r.ticks == ms_to_ticks(ms as int),
            r == Ticks::spec_milliseconds(ms),
    {
        Self::new(ms / TICK_PERIOD_MS)
    }

    /// The whole number of ticks in `secs` seconds.
    pub fn seconds(secs: u32) -> (r: Ticks)
        requires
            secs * 1000 <= u32::MAX,
        ensures
            r.ticks == ms_to_ticks(secs * 1000),
    {
        Self::new(secs * 1000 / TICK_PERIOD_MS)
    }

    /// The duration that never elapses.
    pub fn infinite() -> (r: Ticks)
        ensures
            r.ticks == MAX_DELAY,
    {
        Self::new(MAX_DELAY)
    }

    /// The duration that has already elapsed: a non-blocking wait.
    pub fn zero() -> (r: Ticks)
        ensures
            r.ticks == 0,
    {
        Self::new(0)
    }

    /// This duration in milliseconds.
    pub fn to_milliseconds(&self) -> (r: u32)
        requires
            ticks_to_ms(self.ticks as int) <= u32::MAX,
        ensures
            r == ticks_to_ms(self.ticks as int),
    {
        self.ticks * TICK_PERIOD_MS
    }
}

/// The text describing a duration of `ticks` ticks: its milliseconds, then
/// its ticks.
pub open spec fn ticks_text(ticks: TickType) -> Seq<char> {
    decimal(ticks_to_ms(ticks as int) as nat) + " ms ("@ + decimal(ticks as nat) + " ticks)"@
}

impl Ticks {
    /// The duration as text, such as `250 ms (250 ticks)`.
    pub fn describe(&self) -> (r: String)
        requires
            ticks_to_ms(self.ticks as int) <= u32::MAX,
        ensures
            r@ == ticks_text(self.ticks),
    {
        let mut out = String::new();
        push_decimal(&mut out, self.to_milliseconds() as u64);
        out.append(" ms (");
        push_decimal(&mut out, self.ticks as u64);
        out.append(" ticks)");
        proof {
            assert(out@ =~= ticks_text(self.ticks));
        }
        out
    }
}

/// Converting milliseconds to ticks and back yields the milliseconds rounded
/// down to a whole number of tick periods.
pub proof fn lemma_milliseconds_round_trip(ms: u32)
    ensures
        ticks_to_ms(ms_to_ticks(ms as int)) <= ms,
        ms - ticks_to_ms(ms_to_ticks(ms as int)) < TICK_PERIOD_MS,
        ticks_to_ms(ms_to_ticks(ms as int)) % (TICK_PERIOD_MS as int) == 0,
        ticks_to_ms(ms_to_ticks(ms as int)) <= u32::MAX,
{
}

/// A longer wait in milliseconds never becomes fewer ticks.
pub proof fn lemma_milliseconds_monotonic(ms1: u32, ms2: u32)
    requires
        ms1 <= ms2,
    ensures
        ms_to_ticks(ms1 as int) <= ms_to_ticks(ms2 as int),
{
}

} // verus!
