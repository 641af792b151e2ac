use vstd::prelude::*;

use crate::base::{outcome, FreeRtosError};

verus! {

/// A kernel mutex object, of one of the kernel's two mutex kinds.
pub trait Lockable: Sized {
    /// The kernel handle of the mutex object.
    spec fn handle_of(&self) -> usize;

    /// Whether the kind lets the holding task lock it again.
    spec fn spec_recursive() -> bool;

    /// The mutex object that the kernel's mutex factory reported by `raw`.
    fn create(raw: usize) -> (r: Result<Self, FreeRtosError>)
        ensures
            r is Ok <==> raw != 0,
            r matches Ok(m) ==> m.handle_of() == raw,
            r matches Err(e) ==> e == FreeRtosError::OutOfMemory,
    ;

    /// The outcome of an attempt to take the mutex; `taken` is the kernel's
    /// answer.
    fn take(&self, taken: bool) -> (r: Result<(), FreeRtosError>)
        ensures
            r == outcome(taken, FreeRtosError::MutexTimeout),
    ;

    /// The kernel handle of the mutex object.
    fn handle(&self) -> (r: usize)
        ensures
            r == self.handle_of(),
    ;

    /// Whether the kind lets the holding task lock it again, and so takes the
    /// kernel's recursive take and give operations.
    fn is_recursive() -> (r: bool)
        ensures
            r == Self::spec_recursive(),
    ;
}

/// Who holds a kernel mutex, and how many times over: `(None, 0)` when it
/// is free.
pub type Holding = (Option<usize>, nat);

/// The effect that the kernel gives an attempt by task `task` to take a
/// mutex in state `h`, and whether it succeeded. A free mutex goes to the
/// task; a recursive mutex's holder may take it again; anything else fails.
pub open spec fn take_effect(h: Holding, task: usize, recursive: bool) -> (Holding, bool) {
    match h.0 {
        None => ((Some(task), 1), true),
        Some(holder) => if holder == task && recursive {
            ((Some(holder), h.1 + 1), true)
        } else {
            (h, false)
        },
    }
}

/// The effect that the kernel gives a release by task `task` of a mutex in
/// state `h`, and whether it succeeded: only the holder releases, and a
/// recursive mutex becomes free at its last release.
pub open spec fn give_effect(h: Holding, task: usize, recursive: bool) -> (Holding, bool) {
    match h.0 {
        Some(holder) => if holder != task {
            (h, false)
        } else if recursive && h.1 > 1 {
            ((Some(holder), (h.1 - 1) as nat), true)
        } else {
            ((None, 0), true)
        },
        None => (h, false),
    }
}

/// The state after task `task` takes the mutex `n` times in a row.
pub open spec fn take_n(h: Holding, task: usize, recursive: bool, n: nat) -> Holding
    decreases n,
{
    if n == 0 {
        h
    } else {
        take_n(take_effect(h, task, recursive).0, task, recursive, (n - 1) as nat)
    }
}

/// The state after task `task` releases the mutex `n` times in a row.
pub open spec fn give_n(h: Holding, task: usize, recursive: bool, n: nat) -> Holding
    decreases n,
{
    if n == 0 {
        h
    } else {
        give_n(give_effect(h, task, recursive).0, task, recursive, (n - 1) as nat)
    }
}

/// While a task holds a mutex of either kind, every other task's attempt
/// to take it fails, so at most one holder, and one guard, exists at a time.
/// A mutex of the normal kind fails its own holder's attempt too.
pub proof fn lemma_mutex_exclusive<M: Lockable>(holder: usize, depth: nat, other: usize)
    requires
        other != holder,
    ensures
        take_effect((Some(holder), depth), other, M::spec_recursive()) == (
            (Some(holder), depth),
            false,
        ),
        take_effect((Some(holder), depth), holder, Normal::spec_recursive()).1 == false,
{
}

proof fn lemma_take_n_recursive(task: usize, n: nat)
    requires
        n >= 1,
    ensures
        take_n((None, 0), task, true, n) == (Some(task), n),
    decreases n,
{
    assert(take_effect((None, 0), task, true).0 == (Some(task), 1nat));
    assert(take_n((None, 0), task, true, n) == take_n((Some(task), 1), task, true, (n - 1) as nat));
    lemma_take_n_from_held(task, 1, (n - 1) as nat);
}

proof fn lemma_take_n_from_held(task: usize, depth: nat, n: nat)
    requires
        depth >= 1,
    ensures
        take_n((Some(task), depth), task, true, n) == (Some(task), depth + n),
    decreases n,
{
    if n > 0 {
        lemma_take_n_from_held(task, depth + 1, (n - 1) as nat);
    }
}

proof fn lemma_give_n_recursive(task: usize, depth: nat, n: nat)
    requires
        1 <= n <= depth,
    ensures
        give_n((Some(task), depth), task, true, n) == if n == depth {
            (None::<usize>, 0nat)
        } else {
            (Some(task), (depth - n) as nat)
        },
    decreases n,
{
    let next = give_effect((Some(task), depth), task, true).0;
    assert(give_n((Some(task), depth), task, true, n) == give_n(next, task, true, (n - 1) as nat));
    if n > 1 {
        assert(next == (Some(task), (depth - 1) as nat));
        lemma_give_n_recursive(task, (depth - 1) as nat, (n - 1) as nat);
    }
}

/// A recursive mutex taken `n` times by one task stays held through its
/// first `n - 1` releases, refusing other tasks, and is free again after
/// the `n`-th: as many releases as acquisitions.
pub proof fn lemma_recursive_mutex_counts(task: usize, other: usize, n: nat, k: nat)
    requires
        n >= 1,
        1 <= k < n,
        other != task,
    ensures
        take_n((None, 0), task, Recursive::spec_recursive(), n) == (Some(task), n),
        !take_effect(
            give_n(take_n((None, 0), task, Recursive::spec_recursive(), n), task, Recursive::spec_recursive(), k),
            other,
            Recursive::spec_recursive(),
        ).1,
        give_n(take_n((None, 0), task, Recursive::spec_recursive(), n), task, Recursive::spec_recursive(), n)
            == (None::<usize>, 0nat),
{
    lemma_take_n_recursive(task, n);
    lemma_give_n_recursive(task, n, k);
    lemma_give_n_recursive(task, n, n);
}

/// A kernel mutex that its holder cannot lock again.
pub struct Normal(usize);

/// A kernel mutex that its holder may lock again; it becomes free after as
/// many releases as acquisitions.
pub struct Recursive(usize);

impl Lockable for Normal {
    closed spec fn handle_of(&self) -> usize {
        self.0
    }

    open spec fn spec_recursive() -> bool {
        false
    }

    fn create(raw: usize) -> (r: Result<Self, FreeRtosError>) {
        if raw == 0 {
            Err(FreeRtosError::OutOfMemory)
        } else {
            Ok(Normal(raw))
        }
    }

    fn take(&self, taken: bool) -> (r: Result<(), FreeRtosError>) {
        if taken {
            Ok(())
        } else {
            Err(FreeRtosError::MutexTimeout)
        }
    }

    fn handle(&self) -> (r: usize) {
        self.0
    }

    fn is_recursive() -> (r: bool) {
        false
    }
}

impl Lockable for Recursive {
    closed spec fn handle_of(&self) -> usize {
        self.0
    }

    open spec fn spec_recursive() -> bool {
        true
    }

    fn create(raw: usize) -> (r: Result<Self, FreeRtosError>) {
        if raw == 0 {
            Err(FreeRtosError::OutOfMemory)
        } else {
            Ok(Recursive(raw))
        }
    }

    fn take(&self, taken: bool) -> (r: Result<(), FreeRtosError>) {
        if taken {
            Ok(())
        } else {
            Err(FreeRtosError::MutexTimeout)
        }
    }

    fn handle(&self) -> (r: usize) {
        self.0
    }

    fn is_recursive() -> (r: bool) {
        true
    }
}

/// Mutual exclusion access to a contained value, through a kernel mutex of
/// kind `M`.
pub struct BasicMutex<T, M> {
    mutex: M,
    data: T,
}

/// A mutex that its holder cannot lock again.
pub type Mutex<T> = BasicMutex<T, Normal>;

/// A mutex that its holder may lock again.
pub type RecursiveMutex<T> = BasicMutex<T, Recursive>;

/// Access to a mutex's value while the mutex is held. The holder releases
/// the kernel mutex `mutex` when done with the guard.
pub struct MutexGuard<'a, T, M> {
    pub mutex: &'a M,
    pub data: &'a mut T,
}

impl<T, M: Lockable> BasicMutex<T, M> {
    /// The protected value.
    pub closed spec fn value(&self) -> T {
        self.data
    }

    /// The kernel mutex object.
    pub closed spec fn kernel_mutex(&self) -> M {
        self.mutex
    }

    /// The kernel handle of the mutex.
    pub fn handle(&self) -> (r: usize)
        ensures
            r == self.kernel_mutex().handle_of(),
    {
        self.mutex.handle()
    }

    /// Access to the value once the kernel answered an attempt to take the
    /// mutex with `taken`; without it, `MutexTimeout` and no change.
    pub fn lock(&mut self, taken: bool) -> (r: Result<MutexGuard<'_, T, M>, FreeRtosError>)
        ensures
            r is Ok <==> taken,
            r matches Err(e) ==> e == FreeRtosError::MutexTimeout && *final(self) == *old(self),
            r matches Ok(g) ==> {
                &&& *g.data == old(self).value()
                &&& *g.mutex == old(self).kernel_mutex()
                &&& final(self).value() == *final(g.data)
                &&& final(self).kernel_mutex() == old(self).kernel_mutex()
            },
    {
        match self.mutex.take(taken) {
            Ok(()) => Ok(MutexGuard { mutex: &self.mutex, data: &mut self.data }),
            Err(e) => Err(e),
        }
    }

    /// Consume the mutex and return its kernel object, to be deleted, and its
    /// value.
    pub fn into_inner(self) -> (r: (M, T))
        ensures
            r.0 == self.kernel_mutex(),
            r.1 == self.value(),
    {
        (self.mutex, self.data)
    }
}

impl<T> BasicMutex<T, Normal> {
    /// Create a new mutex with the given inner value, from the handle that
    /// the kernel's mutex factory returned.
    pub fn new(t: T, raw: usize) -> (r: Result<Self, FreeRtosError>)
        ensures
            r is Ok <==> raw != 0,
            r matches Ok(m) ==> m.value() == t && m.kernel_mutex().handle_of() == raw,
            r matches Err(e) ==> e == FreeRtosError::OutOfMemory,
    {
        match Normal::create(raw) {
            Ok(mutex) => Ok(BasicMutex { mutex, data: t }),
            Err(e) => Err(e),
        }
    }
}

impl<T> BasicMutex<T, Recursive> {
    /// Create a new recursive mutex with the given inner value, from the
    /// handle that the kernel's recursive mutex factory returned.
    pub fn new(t: T, raw: usize) -> (r: Result<Self, FreeRtosError>)
        ensures
            r is Ok <==> raw != 0,
            r matches Ok(m) ==> m.value() == t && m.kernel_mutex().handle_of() == raw,
            r matches Err(e) ==> e == FreeRtosError::OutOfMemory,
    {
        match Recursive::create(raw) {
            Ok(mutex) => Ok(BasicMutex { mutex, data: t }),
            Err(e) => Err(e),
        }
    }
}

impl<'a, T, M: Lockable> MutexGuard<'a, T, M> {
    /// The kernel handle to release when the guard is done.
    pub fn handle(&self) -> (r: usize)
        ensures
            r == self.mutex.handle_of(),
    {
        self.mutex.handle()
    }
}

} // verus!
