use vstd::prelude::*;

use core::marker::PhantomData;

use crate::base::{outcome, outcome_of, FreeRtosError, UBaseType};
use crate::isr::InterruptContext;

verus! {

/// A kernel queue of fixed capacity, holding copies of items of type `T`.
pub struct Queue<T: Copy> {
    queue: usize,
    capacity: usize,
    item_type: PhantomData<T>,
}

/// The length and item size to hand to the kernel's queue factory for a
/// queue of `max_size` items of `item_size` bytes: both must fit the
/// kernel's unsigned base integer, and a queue holds at least one item.
pub open spec fn queue_request(max_size: usize, item_size: nat) -> Result<(UBaseType, UBaseType), FreeRtosError> {
    if 0 < max_size <= UBaseType::MAX && item_size <= UBaseType::MAX {
        Ok((max_size as UBaseType, item_size as UBaseType))
    } else {
        Err(FreeRtosError::InvalidQueueSize)
    }
}

/// The effect that the kernel gives a send of `item` to a queue holding
/// `items` in `capacity` slots, and whether the item went in: it goes to the
/// back when a slot is free, and nothing changes otherwise.
pub open spec fn send_effect<T>(items: Seq<T>, capacity: nat, item: T) -> (Seq<T>, bool) {
    if items.len() < capacity {
        (items.push(item), true)
    } else {
        (items, false)
    }
}

/// The effect that the kernel gives a receive on a queue holding `items`:
/// the front item leaves, if there is one.
pub open spec fn receive_effect<T>(items: Seq<T>) -> (Seq<T>, Option<T>) {
    if items.len() > 0 {
        (items.drop_first(), Some(items[0]))
    } else {
        (items, None)
    }
}

/// The queue after sending `xs` in order, and whether every send went in.
pub open spec fn send_all<T>(items: Seq<T>, capacity: nat, xs: Seq<T>) -> (Seq<T>, bool)
    decreases xs.len(),
{
    if xs.len() == 0 {
        (items, true)
    } else {
        let first = send_effect(items, capacity, xs[0]);
        let rest = send_all(first.0, capacity, xs.drop_first());
        (rest.0, first.1 && rest.1)
    }
}

/// The items that `n` receives in a row return, in order.
pub open spec fn receive_all<T>(items: Seq<T>, n: nat) -> Seq<T>
    decreases n,
{
    if n == 0 {
        Seq::empty()
    } else {
        let first = receive_effect(items);
        match first.1 {
            Some(x) => seq![x] + receive_all(first.0, (n - 1) as nat),
            None => receive_all(first.0, (n - 1) as nat),
        }
    }
}

proof fn lemma_send_all_appends<T>(items: Seq<T>, capacity: nat, xs: Seq<T>)
    requires
        items.len() + xs.len() <= capacity,
    ensures
        send_all(items, capacity, xs) == (items + xs, true),
    decreases xs.len(),
{
    if xs.len() > 0 {
        lemma_send_all_appends(items.push(xs[0]), capacity, xs.drop_first());
        assert(items.push(xs[0]) + xs.drop_first() =~= items + xs);
    } else {
        assert(items + xs =~= items);
    }
}

proof fn lemma_receive_all_takes_front<T>(items: Seq<T>, n: nat)
    requires
        n <= items.len(),
    ensures
        receive_all(items, n) == items.take(n as int),
    decreases n,
{
    if n > 0 {
        lemma_receive_all_takes_front(items.drop_first(), (n - 1) as nat);
        assert(seq![items[0]] + items.drop_first().take(n - 1) =~= items.take(n as int));
    } else {
        assert(items.take(0) =~= Seq::<T>::empty());
    }
}

/// Items sent one after another to an empty queue, each finding room, come
/// out of as many receives exactly in the order they were sent.
pub proof fn lemma_queue_fifo<T>(capacity: nat, xs: Seq<T>)
    requires
        xs.len() <= capacity,
    ensures
        send_all(Seq::<T>::empty(), capacity, xs).1,
        receive_all(send_all(Seq::<T>::empty(), capacity, xs).0, xs.len()) == xs,
{
    lemma_send_all_appends(Seq::<T>::empty(), capacity, xs);
    assert(Seq::<T>::empty() + xs =~= xs);
    lemma_receive_all_takes_front(xs, xs.len());
    assert(xs.take(xs.len() as int) =~= xs);
}

/// A queue made for `k` items is created with room for exactly `k`: `k`
/// sends to it, empty, all go in, and a further send finds no room, which
/// a send reports as `QueueSendTimeout`.
pub proof fn lemma_queue_capacity<T>(k: usize, item_size: nat, xs: Seq<T>, extra: T)
    requires
        0 < k <= UBaseType::MAX,
        item_size <= UBaseType::MAX,
        xs.len() == k,
    ensures
        queue_request(k, item_size) matches Ok((length, _)) && length == k,
        send_all(Seq::<T>::empty(), k as nat, xs) == (xs, true),
        send_effect(xs, k as nat, extra) == (xs, false),
        outcome(send_effect(xs, k as nat, extra).1, FreeRtosError::QueueSendTimeout)
            == Err::<(), FreeRtosError>(FreeRtosError::QueueSendTimeout),
{
    lemma_send_all_appends(Seq::<T>::empty(), k as nat, xs);
    assert(Seq::<T>::empty() + xs =~= xs);
}

impl<T: Copy> Queue<T> {
    /// The kernel handle of the queue.
    pub closed spec fn handle(&self) -> usize {
        self.queue
    }

    /// The number of items the queue holds at most.
    pub closed spec fn max_items(&self) -> usize {
        self.capacity
    }

    /// The length and item size to hand to the kernel's queue factory for a
    /// queue of `max_size` items; `InvalidQueueSize` where the kernel cannot
    /// take them.
    pub fn creation_request(max_size: usize) -> (r: Result<(UBaseType, UBaseType), FreeRtosError>)
        ensures
            r == queue_request(max_size, vstd::layout::size_of::<T>()),
    {
        let item_size = core::mem::size_of::<T>();
        if 0 < max_size && max_size <= UBaseType::MAX as usize && item_size <= UBaseType::MAX as usize {
            Ok((max_size as UBaseType, item_size as UBaseType))
        } else {
            Err(FreeRtosError::InvalidQueueSize)
        }
    }

    /// The queue of `max_size` items that the kernel's queue factory
    /// reported by `raw`.
    pub fn from_created(max_size: usize, raw: usize) -> (r: Result<Queue<T>, FreeRtosError>)
        ensures
            r is Ok <==> raw != 0,
            r matches Ok(q) ==> q.handle() == raw && q.max_items() == max_size,
            r matches Err(e) ==> e == FreeRtosError::OutOfMemory,
    {
        if raw == 0 {
            Err(FreeRtosError::OutOfMemory)
        } else {
            Ok(Queue { queue: raw, capacity: max_size, item_type: PhantomData })
        }
    }

    /// The kernel handle of the queue.
    pub fn raw_handle(&self) -> (r: usize)
        ensures
            r == self.handle(),
    {
        self.queue
    }

    /// The number of items the queue holds at most.
    pub fn capacity(&self) -> (r: usize)
        ensures
            r == self.max_items(),
    {
        self.capacity
    }

    /// The outcome of sending an item to the end of the queue; `sent` is the
    /// kernel's answer, false when no room came free within the wait.
    pub fn send(&self, sent: bool) -> (r: Result<(), FreeRtosError>)
        ensures
            r == outcome(sent, FreeRtosError::QueueSendTimeout),
    {
        outcome_of(sent, FreeRtosError::QueueSendTimeout)
    }

    /// The outcome of sending an item from an interrupt handler: `sent` is
    /// the kernel's answer, false when the queue was full, and `woken`
    /// whether a task of higher priority was woken, recorded in `context`.
    pub fn send_from_isr(&self, context: &mut InterruptContext, sent: bool, woken: bool) -> (r:
        Result<(), FreeRtosError>)
        ensures
            r == outcome(sent, FreeRtosError::QueueFull),
            final(context).yield_pending() == (old(context).yield_pending() || woken),
    {
        context.record_woken(woken);
        outcome_of(sent, FreeRtosError::QueueFull)
    }

    /// The outcome of waiting for an item: the item that the kernel
    /// delivered, or `QueueReceiveTimeout` where none came within the wait.
    pub fn receive(&self, received: Option<T>) -> (r: Result<T, FreeRtosError>)
        ensures
            received matches Some(item) ==> r == Ok::<T, FreeRtosError>(item),
            received is None ==> r == Err::<T, FreeRtosError>(FreeRtosError::QueueReceiveTimeout),
    {
        match received {
            Some(item) => Ok(item),
            None => Err(FreeRtosError::QueueReceiveTimeout),
        }
    }
}

} // verus!
