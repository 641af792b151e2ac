use vstd::prelude::*;

use crate::base::{FreeRtosError, UBaseType};
use crate::isr::InterruptContext;

verus! {

/// Proof that preemption is disabled, holding the interrupt state that was
/// in force before; leaving the section restores that state.
pub struct CriticalSection {
    pub saved_state: UBaseType,
}

impl CriticalSection {
    /// The section entered when the kernel reported `saved_state` as the
    /// state to restore.
    pub fn from_saved_state(saved_state: UBaseType) -> (r: CriticalSection)
        ensures
            r.saved_state == saved_state,
    {
        CriticalSection { saved_state }
    }
}

/// Data protected with a critical section. Lightweight version of a mutex,
/// intended for short accesses that never block, from tasks and from
/// interrupt handlers alike.
pub struct ExclusiveData<T> {
    data: T,
}

/// Access to the data of an `ExclusiveData` while preemption is disabled;
/// leaving `section` ends the access.
pub struct ExclusiveDataGuard<'a, T> {
    pub data: &'a mut T,
    pub section: CriticalSection,
}

/// Access to the data of an `ExclusiveData` from an interrupt handler, where
/// no task can run.
pub struct ExclusiveDataGuardIsr<'a, T> {
    pub data: &'a mut T,
}

impl<T> ExclusiveData<T> {
    /// The protected value.
    pub closed spec fn value(&self) -> T {
        self.data
    }

    pub fn new(data: T) -> (r: Self)
        ensures
            r.value() == data,
    {
        ExclusiveData { data }
    }

    /// Access to the data inside the critical section `section`, which the
    /// guard keeps until it is done.
    pub fn lock(&mut self, section: CriticalSection) -> (r: Result<ExclusiveDataGuard<'_, T>, FreeRtosError>)
        ensures
            r matches Ok(g) && {
                &&& *g.data == old(self).value()
                &&& final(self).value() == *final(g.data)
                &&& g.section == section
            },
    {
        Ok(ExclusiveDataGuard { data: &mut self.data, section })
    }

    /// Access to the data from an interrupt handler; it neither disables
    /// preemption nor requests a task switch.
    pub fn lock_from_isr(&mut self, context: &mut InterruptContext) -> (r: Result<
        ExclusiveDataGuardIsr<'_, T>,
        FreeRtosError,
    >)
        ensures
            r matches Ok(g) && {
                &&& *g.data == old(self).value()
                &&& final(self).value() == *final(g.data)
            },
            *final(context) == *old(context),
    {
        Ok(ExclusiveDataGuardIsr { data: &mut self.data })
    }
}

impl<'a, T> ExclusiveDataGuard<'a, T> {
    /// Ends the access, handing back the critical section to leave.
    pub fn unlock(self) -> (r: CriticalSection)
        ensures
            r == self.section,
    {
        self.section
    }
}

} // verus!
