use vstd::prelude::*;

use crate::base::{outcome, outcome_of, FreeRtosError};
use crate::isr::InterruptContext;

verus! {

/// A counting or binary kernel semaphore.
pub struct Semaphore {
    semaphore: usize,
    max_count: u32,
}

/// Holds the semaphore until the holder gives it back.
pub struct SemaphoreGuard<'a> {
    pub semaphore: &'a Semaphore,
}

impl Semaphore {
    /// The kernel handle of the semaphore.
    pub closed spec fn handle(&self) -> usize {
        self.semaphore
    }

    /// The most the semaphore's count can reach.
    pub closed spec fn capacity(&self) -> u32 {
        self.max_count
    }

    /// The binary semaphore that the kernel's factory reported by `raw`.
    pub fn new_binary(raw: usize) -> (r: Result<Semaphore, FreeRtosError>)
        ensures
            r is Ok <==> raw != 0,
            r matches Ok(s) ==> s.handle() == raw && s.capacity() == 1,
            r matches Err(e) ==> e == FreeRtosError::OutOfMemory,
    {
        if raw == 0 {
            Err(FreeRtosError::OutOfMemory)
        } else {
            Ok(Semaphore { semaphore: raw, max_count: 1 })
        }
    }

    /// The counting semaphore of capacity `max`, starting at `initial`, that
    /// the kernel's factory reported by `raw`.
    pub fn new_counting(max: u32, initial: u32, raw: usize) -> (r: Result<Semaphore, FreeRtosError>)
        requires
            initial <= max,
        ensures
            r is Ok <==> raw != 0,
            r matches Ok(s) ==> s.handle() == raw && s.capacity() == max,
            r matches Err(e) ==> e == FreeRtosError::OutOfMemory,
    {
        if raw == 0 {
            Err(FreeRtosError::OutOfMemory)
        } else {
            Ok(Semaphore { semaphore: raw, max_count: max })
        }
    }

    /// The kernel handle of the semaphore.
    pub fn raw_handle(&self) -> (r: usize)
        ensures
            r == self.handle(),
    {
        self.semaphore
    }

    /// The most the semaphore's count can reach.
    pub fn max_count(&self) -> (r: u32)
        ensures
            r == self.capacity(),
    {
        self.max_count
    }

    /// A guard over the semaphore once the kernel answered an attempt to take
    /// it with `taken`; without it, `Timeout`.
    pub fn lock(&self, taken: bool) -> (r: Result<SemaphoreGuard<'_>, FreeRtosError>)
        ensures
            r is Ok <==> taken,
            r matches Ok(g) ==> g.semaphore == self,
            r matches Err(e) ==> e == FreeRtosError::Timeout,
    {
        if taken {
            Ok(SemaphoreGuard { semaphore: self })
        } else {
            Err(FreeRtosError::Timeout)
        }
    }

    /// The outcome of giving the semaphore; `given` is the kernel's answer,
    /// false when the count was already at its capacity.
    pub fn give(&self, given: bool) -> (r: Result<(), FreeRtosError>)
        ensures
            r == outcome(given, FreeRtosError::QueueFull),
    {
        outcome_of(given, FreeRtosError::QueueFull)
    }

    /// The outcome of taking the semaphore; `taken` is the kernel's answer.
    pub fn take(&self, taken: bool) -> (r: Result<(), FreeRtosError>)
        ensures
            r == outcome(taken, FreeRtosError::Timeout),
    {
        outcome_of(taken, FreeRtosError::Timeout)
    }

    /// The outcome of giving the semaphore from an interrupt handler:
    /// `given` is the kernel's answer and `woken` whether a task of higher
    /// priority was woken, which is recorded in `context`.
    pub fn give_from_isr(&self, context: &mut InterruptContext, given: bool, woken: bool) -> (r:
        Result<(), FreeRtosError>)
        ensures
            r == outcome(given, FreeRtosError::QueueFull),
            final(context).yield_pending() == (old(context).yield_pending() || woken),
    {
        context.record_woken(woken);
        outcome_of(given, FreeRtosError::QueueFull)
    }
}

impl<'a> SemaphoreGuard<'a> {
    /// The kernel handle to give back when the guard is done.
    pub fn handle(&self) -> (r: usize)
        ensures
            r == self.semaphore.handle(),
    {
        self.semaphore.raw_handle()
    }
}

} // verus!
