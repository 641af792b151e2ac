use vstd::prelude::*;

use crate::base::{BaseType, PD_TRUE};

verus! {

/// Keeps track of whether the kernel asked, during one interrupt handler,
/// for a switch to a task of higher priority than the interrupted one.
///
/// Create one at the start of each handler, hand it to every kernel
/// operation made from the handler, and let it go as the handler's last act:
/// the switch is then requested once, if any operation asked for it.
pub struct InterruptContext {
    x_higher_priority_task_woken: BaseType,
}

impl InterruptContext {
    /// Whether an operation made with this context asked for a task switch.
    pub closed spec fn yield_pending(&self) -> bool {
        self.x_higher_priority_task_woken == PD_TRUE
    }

    /// Instantiate a new context, with no switch requested.
    pub fn new() -> (r: InterruptContext)
        ensures
            !r.yield_pending(),
    {
        InterruptContext { x_higher_priority_task_woken: 0 }
    }

    /// Records whether a kernel operation made from the handler woke a task
    /// of higher priority; a request, once recorded, stays.
    pub fn record_woken(&mut self, woken: bool)
        ensures
            final(self).yield_pending() == (old(self).yield_pending() || woken),
    {
        if woken {
            self.x_higher_priority_task_woken = PD_TRUE;
        }
    }

    /// Whether a task switch must be requested when the handler ends.
    pub fn yield_requested(&self) -> (r: bool)
        ensures
            r == self.yield_pending(),
    {
        self.x_higher_priority_task_woken == PD_TRUE
    }
}

} // verus!
