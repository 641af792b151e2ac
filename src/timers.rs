use vstd::prelude::*;

use crate::base::{outcome, outcome_of, FreeRtosError};
use crate::task::{kernel_name, kernel_name_bytes};
use crate::units::Ticks;
use vstd::utf8::encode_utf8;

verus! {

/// Milliseconds that deleting a timer may wait for room in the timer
/// service's command queue.
pub const TIMER_DELETE_WAIT_MS: u32 = 1000;

/// A kernel software timer.
///
/// Every operation on a timer is a command sent to the kernel's timer
/// service task, and waits at most a given time for room in its queue.
/// A timer made by `TimerBuilder::create` owns the heap allocation of its
/// callback until it is torn down or detached.
pub struct Timer {
    handle: usize,
    owns_callback: bool,
}

/// What must happen when an owning timer goes away: delete the kernel timer,
/// waiting at most `block_time`, and free the callback allocation.
#[derive(Copy, Clone, Debug, PartialEq, Eq, Structural)]
pub struct TimerTeardown {
    pub handle: usize,
    pub block_time: Ticks,
}

/// Helper builder for a new software timer.
pub struct TimerBuilder {
    pub name: String,
    pub period: Ticks,
    pub auto_reload: bool,
}

impl TimerBuilder {
    /// Set the name of the timer.
    pub fn set_name(&mut self, name: &str) -> (r: &mut Self)
        ensures
            r.name@ == name@,
            r.period == old(self).period,
            r.auto_reload == old(self).auto_reload,
            *final(self) == *final(r),
    {
        self.name = name.to_owned();
        self
    }

    /// Set the period of the timer.
    pub fn set_period(&mut self, period: Ticks) -> (r: &mut Self)
        ensures
            r.name == old(self).name,
            r.period == period,
            r.auto_reload == old(self).auto_reload,
            *final(self) == *final(r),
    {
        self.period = period;
        self
    }

    /// Should the timer be automatically reloaded?
    pub fn set_auto_reload(&mut self, auto_reload: bool) -> (r: &mut Self)
        ensures
            r.name == old(self).name,
            r.period == old(self).period,
            r.auto_reload == auto_reload,
            *final(self) == *final(r),
    {
        self.auto_reload = auto_reload;
        self
    }

    /// The nul-terminated name buffer to hand to the kernel's timer factory.
    pub fn kernel_name(&self) -> (r: Vec<u8>)
        ensures
            r@ == kernel_name_bytes(encode_utf8(self.name@)),
    {
        kernel_name(self.name.as_str())
    }
}

/// The timer that the kernel's timer factory reported by `handle`.
pub closed spec fn created_timer(handle: usize) -> Result<Timer, FreeRtosError> {
    if handle == 0 {
        Err(FreeRtosError::OutOfMemory)
    } else {
        Ok(Timer { handle, owns_callback: true })
    }
}

/// `t` once detached: it no longer owns its callback.
pub closed spec fn detached(t: Timer) -> Timer {
    Timer { owns_callback: false, ..t }
}

/// What tearing down `t` requires.
pub closed spec fn teardown_of(t: Timer) -> Option<TimerTeardown> {
    if t.owns_callback {
        Some(TimerTeardown { handle: t.handle, block_time: Ticks::spec_milliseconds(TIMER_DELETE_WAIT_MS) })
    } else {
        None
    }
}

impl Timer {
    /// The kernel handle of this timer.
    pub closed spec fn handle(&self) -> usize {
        self.handle
    }

    /// Whether this timer owns its callback's allocation.
    pub closed spec fn owns_callback(&self) -> bool {
        self.owns_callback
    }

    /// Create a new timer builder: named `timer`, with period `period`, and
    /// reloading automatically.
    pub fn new(period: Ticks) -> (r: TimerBuilder)
        ensures
            r.name@ == "timer"@,
            r.period == period,
            r.auto_reload,
    {
        TimerBuilder { name: "timer".to_owned(), period, auto_reload: true }
    }

    /// The timer that the kernel's timer factory reported by `handle`. On
    /// `Err` the callback allocation stays with the caller, who must free it.
    pub fn from_created(handle: usize) -> (r: Result<Timer, FreeRtosError>)
        ensures
            r == created_timer(handle),
            r is Ok <==> handle != 0,
            r matches Ok(t) ==> t.handle() == handle && t.owns_callback(),
            r matches Err(e) ==> e == FreeRtosError::OutOfMemory,
    {
        if handle == 0 {
            Err(FreeRtosError::OutOfMemory)
        } else {
            Ok(Timer { handle, owns_callback: true })
        }
    }

    /// The timer handed to a callback when the timer `handle` fires; it does
    /// not own the callback.
    pub fn for_callback(handle: usize) -> (r: Timer)
        ensures
            r.handle() == handle,
            !r.owns_callback(),
    {
        Timer { handle, owns_callback: false }
    }

    /// The kernel handle of this timer.
    pub fn raw_handle(&self) -> (r: usize)
        ensures
            r == self.handle(),
    {
        self.handle
    }

    /// The outcome of the start command; `accepted` is the kernel's answer.
    pub fn start(&self, accepted: bool) -> (r: Result<(), FreeRtosError>)
        ensures
            r == outcome(accepted, FreeRtosError::Timeout),
    {
        outcome_of(accepted, FreeRtosError::Timeout)
    }

    /// The outcome of the stop command; `accepted` is the kernel's answer.
    pub fn stop(&self, accepted: bool) -> (r: Result<(), FreeRtosError>)
        ensures
            r == outcome(accepted, FreeRtosError::Timeout),
    {
        outcome_of(accepted, FreeRtosError::Timeout)
    }

    /// The outcome of the change-period command; `accepted` is the kernel's
    /// answer.
    pub fn change_period(&self, accepted: bool) -> (r: Result<(), FreeRtosError>)
        ensures
            r == outcome(accepted, FreeRtosError::Timeout),
    {
        outcome_of(accepted, FreeRtosError::Timeout)
    }

    /// Detach this timer from the library's memory management: the kernel
    /// timer stays active, and its callback is never freed.
    pub fn detach(&mut self)
        ensures
            *final(self) == detached(*old(self)),
            final(self).handle() == old(self).handle(),
            !final(self).owns_callback(),
    {
        self.owns_callback = false;
    }

    /// What must be done when this timer goes away; `None` for a timer that
    /// owns no callback.
    pub fn teardown(self) -> (r: Option<TimerTeardown>)
        ensures
            r == teardown_of(self),
            r is Some <==> self.owns_callback(),
            r matches Some(t) ==> t.handle == self.handle() && t.block_time == Ticks::spec_milliseconds(TIMER_DELETE_WAIT_MS),
    {
        if self.owns_callback {
            Some(TimerTeardown { handle: self.handle, block_time: Ticks::milliseconds(TIMER_DELETE_WAIT_MS) })
        } else {
            None
        }
    }
}

/// A timer that the kernel created, and that is torn down without having
/// been detached, deletes its kernel timer and frees its callback: teardown
/// consumes the timer, so this happens once. Whether it ever fired plays no
/// part. A detached timer's teardown does neither.
pub proof fn lemma_timer_callback_ownership(handle: usize)
    requires
        handle != 0,
    ensures
        created_timer(handle) matches Ok(t) && {
            &&& teardown_of(t) matches Some(d) && d.handle == handle
            &&& teardown_of(detached(t)) is None
        },
{
}

} // verus!
