use vstd::prelude::*;

use crate::base::{outcome, outcome_of, FreeRtosError, UBaseType};
use crate::isr::InterruptContext;
use crate::units::{TickType, Ticks};
use vstd::string::StringSliceAdditionalSpecFns;
use vstd::utf8::encode_utf8;

verus! {

/// Longest task or timer name the kernel stores, terminating nul included.
pub const MAX_TASK_NAME_LEN: usize = 16;

/// Stack size, in words, of a task built with the default settings.
pub const DEFAULT_STACK_SIZE: u16 = 1024;

/// Handle of a kernel task.
pub struct Task {
    task_handle: usize,
}

/// Task's execution priority. Low priority numbers denote low priority tasks.
#[derive(Copy, Clone, Debug, PartialEq, Eq, Structural)]
pub struct TaskPriority(pub u8);

/// The kernel's notify actions, one for each kind of notification.
#[derive(Copy, Clone, Debug, PartialEq, Eq, Structural)]
pub enum NotifyAction {
    NoAction,
    SetBits,
    Increment,
    SetValueWithOverwrite,
    SetValueWithoutOverwrite,
}

/// Notification to be sent to a task.
#[derive(Copy, Clone, Debug, PartialEq, Eq, Structural)]
pub enum TaskNotification {
    /// Send the event, unblock the task, the task's notification value isn't changed.
    NoAction,
    /// Perform a logical or with the task's notification value.
    SetBits(u32),
    /// Increment the task's notification value by one.
    Increment,
    /// Set the task's notification value to this value.
    OverwriteValue(u32),
    /// Try to set the task's notification value to this value. Succeeds
    /// only if the task has no pending notifications. Otherwise, the
    /// notification has no effect.
    SetValue(u32),
}

/// The value and action that the kernel is handed for notification `n`.
pub open spec fn notify_request(n: TaskNotification) -> (u32, NotifyAction) {
    match n {
        TaskNotification::NoAction => (0, NotifyAction::NoAction),
        TaskNotification::SetBits(v) => (v, NotifyAction::SetBits),
        TaskNotification::Increment => (0, NotifyAction::Increment),
        TaskNotification::OverwriteValue(v) => (v, NotifyAction::SetValueWithOverwrite),
        TaskNotification::SetValue(v) => (v, NotifyAction::SetValueWithoutOverwrite),
    }
}

/// A task's notification state: its 32-bit value and whether a
/// notification is pending.
#[derive(Copy, Clone, Debug, PartialEq, Eq, Structural)]
pub struct NotificationSlot {
    pub value: u32,
    pub pending: bool,
}

/// The effect that the kernel gives a notify request of `value` and `action`
/// on a task's notification state, and whether the request took effect. Any
/// request leaves a notification pending, except a set-without-overwrite
/// that finds one pending already: that one changes nothing.
pub open spec fn notify_effect(slot: NotificationSlot, value: u32, action: NotifyAction) -> (
    NotificationSlot,
    bool,
) {
    match action {
        NotifyAction::NoAction => (NotificationSlot { value: slot.value, pending: true }, true),
        NotifyAction::SetBits => (NotificationSlot { value: slot.value | value, pending: true }, true),
        NotifyAction::Increment => (
            NotificationSlot {
                value: if slot.value == u32::MAX {
                    0
                } else {
                    (slot.value + 1) as u32
                },
                pending: true,
            },
            true,
        ),
        NotifyAction::SetValueWithOverwrite => (NotificationSlot { value, pending: true }, true),
        NotifyAction::SetValueWithoutOverwrite => if slot.pending {
            (slot, false)
        } else {
            (NotificationSlot { value, pending: true }, true)
        },
    }
}

/// The effect of sending notification `n` to a task whose notification
/// state is `slot`, and whether it took effect.
pub open spec fn notified(slot: NotificationSlot, n: TaskNotification) -> (NotificationSlot, bool) {
    notify_effect(slot, notify_request(n).0, notify_request(n).1)
}

/// Of two `SetValue` notifications with no take or clear between them, only
/// the first takes effect: the second leaves the value, and everything
/// else, as the first left it.
pub proof fn lemma_set_value_only_first_applies(slot: NotificationSlot, v1: u32, v2: u32)
    requires
        !slot.pending,
    ensures
        notified(slot, TaskNotification::SetValue(v1)).1,
        notified(slot, TaskNotification::SetValue(v1)).0.value == v1,
        notified(notified(slot, TaskNotification::SetValue(v1)).0, TaskNotification::SetValue(v2))
            == (notified(slot, TaskNotification::SetValue(v1)).0, false),
{
}

/// An `OverwriteValue` notification always takes effect, pending
/// notification or not.
pub proof fn lemma_overwrite_always_applies(slot: NotificationSlot, v: u32)
    ensures
        notified(slot, TaskNotification::OverwriteValue(v)) == (
            NotificationSlot { value: v, pending: true },
            true,
        ),
{
}

impl NotifyAction {
    /// The kernel's numeric code of this action.
    pub fn code(&self) -> (r: u32)
        ensures
            r == match *self {
                NotifyAction::NoAction => 0u32,
                NotifyAction::SetBits => 1,
                NotifyAction::Increment => 2,
                NotifyAction::SetValueWithOverwrite => 3,
                NotifyAction::SetValueWithoutOverwrite => 4,
            },
    {
        match self {
            NotifyAction::NoAction => 0,
            NotifyAction::SetBits => 1,
            NotifyAction::Increment => 2,
            NotifyAction::SetValueWithOverwrite => 3,
            NotifyAction::SetValueWithoutOverwrite => 4,
        }
    }
}

impl TaskNotification {
    /// The value and action to hand to the kernel for this notification.
    pub fn to_freertos(&self) -> (r: (u32, NotifyAction))
        ensures
            r == notify_request(*self),
    {
        match *self {
            TaskNotification::NoAction => (0, NotifyAction::NoAction),
            TaskNotification::SetBits(v) => (v, NotifyAction::SetBits),
            TaskNotification::Increment => (0, NotifyAction::Increment),
            TaskNotification::OverwriteValue(v) => (v, NotifyAction::SetValueWithOverwrite),
            TaskNotification::SetValue(v) => (v, NotifyAction::SetValueWithoutOverwrite),
        }
    }
}

impl TaskPriority {
    /// The priority as the kernel's unsigned base integer.
    pub fn to_freertos(&self) -> (r: UBaseType)
        ensures
            r == self.0,
    {
        self.0 as UBaseType
    }
}

/// The name bytes that the kernel stores for a name whose text is `b`: at
/// most `MAX_TASK_NAME_LEN - 1` bytes of it, then nul bytes up to
/// `MAX_TASK_NAME_LEN`.
pub open spec fn kernel_name_bytes(b: Seq<u8>) -> Seq<u8> {
    Seq::new(
        MAX_TASK_NAME_LEN as nat,
        |i: int|
            if i < b.len() && i < MAX_TASK_NAME_LEN - 1 {
                b[i]
            } else {
                0u8
            },
    )
}

/// The nul-terminated name buffer handed to the kernel when a task or timer
/// named `name` is created.
pub fn kernel_name(name: &str) -> (r: Vec<u8>)
    ensures
        r@ == kernel_name_bytes(name.spec_bytes()),
{
    let bytes = name.as_bytes();
    let mut buf: Vec<u8> = Vec::new();
    let mut i: usize = 0;
    while i < MAX_TASK_NAME_LEN
        invariant
            i <= MAX_TASK_NAME_LEN,
            bytes@ == name.spec_bytes(),
            buf@ == kernel_name_bytes(name.spec_bytes()).subrange(0, i as int),
        decreases MAX_TASK_NAME_LEN - i,
    {
        if i < bytes.len() && i < MAX_TASK_NAME_LEN - 1 {
            buf.push(bytes[i]);
        } else {
            buf.push(0);
        }
        proof {
            assert(buf@ =~= kernel_name_bytes(name.spec_bytes()).subrange(0, i + 1));
        }
        i = i + 1;
    }
    proof {
        assert(buf@ =~= kernel_name_bytes(name.spec_bytes()));
    }
    buf
}

impl Task {
    /// The task's kernel handle.
    pub closed spec fn handle(&self) -> usize {
        self.task_handle
    }

    /// Prepare a builder object for the new task: named `rust_task`, with a
    /// stack of `DEFAULT_STACK_SIZE` words, priority 1, and every core allowed.
    pub fn new() -> (r: TaskBuilder)
        ensures
            r.name@ == "rust_task"@,
            r.stack_size == DEFAULT_STACK_SIZE,
            r.priority == TaskPriority(1),
            r.core_affinity_mask == UBaseType::MAX,
    {
        TaskBuilder {
            name: "rust_task".to_owned(),
            stack_size: DEFAULT_STACK_SIZE,
            priority: TaskPriority(1),
            core_affinity_mask: UBaseType::MAX,
        }
    }

    /// The task's kernel handle.
    pub fn into_raw(self) -> (r: usize)
        ensures
            r == self.handle(),
    {
        self.task_handle
    }

    /// The task whose kernel handle is `handle`.
    pub fn from_raw(handle: usize) -> (r: Task)
        ensures
            r.handle() == handle,
    {
        Task { task_handle: handle }
    }

    /// The kernel handle of the task, which keeps it.
    pub fn raw_handle(&self) -> (r: usize)
        ensures
            r == self.handle(),
    {
        self.task_handle
    }

    /// The task that the kernel's task factory reported: `created` is its
    /// success flag and `handle` the handle it wrote. Without both, the task
    /// could not be allocated, and the entry argument handed to the factory
    /// stays with the caller, who must release it.
    pub fn from_spawn(created: bool, handle: usize) -> (r: Result<Task, FreeRtosError>)
        ensures
            r is Ok <==> (created && handle != 0),
            r matches Ok(t) ==> t.handle() == handle,
            r matches Err(e) ==> e == FreeRtosError::OutOfMemory,
    {
        if created && handle != 0 {
            Ok(Task { task_handle: handle })
        } else {
            Err(FreeRtosError::OutOfMemory)
        }
    }

    /// The value and action that the kernel must be handed to set the
    /// task's notification value to `val` unconditionally.
    pub fn set_notification_value(&self, val: u32) -> (r: (u32, NotifyAction))
        ensures
            r == notify_request(TaskNotification::OverwriteValue(val)),
    {
        TaskNotification::OverwriteValue(val).to_freertos()
    }

    /// The outcome of notifying the task from an interrupt handler:
    /// `accepted` is the kernel's answer and `woken` whether the notification
    /// woke a task of higher priority, which is recorded in `context`.
    pub fn notify_from_isr(
        &self,
        context: &mut InterruptContext,
        accepted: bool,
        woken: bool,
    ) -> (r: Result<(), FreeRtosError>)
        ensures
            r == outcome(accepted, FreeRtosError::QueueFull),
            final(context).yield_pending() == (old(context).yield_pending() || woken),
    {
        context.record_woken(woken);
        outcome_of(accepted, FreeRtosError::QueueFull)
    }

    /// The outcome of waiting for a notification: `received` is whether one
    /// arrived before the wait ran out, `value` the notification value the
    /// kernel reported.
    pub fn wait_for_notification(&self, received: bool, value: u32) -> (r: Result<
        u32,
        FreeRtosError,
    >)
        ensures
            received ==> r == Ok::<u32, FreeRtosError>(value),
            !received ==> r == Err::<u32, FreeRtosError>(FreeRtosError::Timeout),
    {
        if received {
            Ok(value)
        } else {
            Err(FreeRtosError::Timeout)
        }
    }
}

/// The time since the scheduler started, from `now`, the kernel's current
/// tick count.
pub fn get_tick_count_duration(now: TickType) -> (r: Ticks)
    ensures
        r.ticks == now,
{
    Ticks::new(now)
}

/// Helper for spawning a new task. Instantiate with [`Task::new()`].
pub struct TaskBuilder {
    pub name: String,
    pub stack_size: u16,
    pub priority: TaskPriority,
    pub core_affinity_mask: UBaseType,
}

impl TaskBuilder {
    /// Set the task's name.
    pub fn name(&mut self, name: &str) -> (r: &mut Self)
        ensures
            r.name@ == name@,
            r.stack_size == old(self).stack_size,
            r.priority == old(self).priority,
            r.core_affinity_mask == old(self).core_affinity_mask,
            *final(self) == *final(r),
    {
        self.name = name.to_owned();
        self
    }

    /// Set the stack size, in words.
    pub fn stack_size(&mut self, stack_size: u16) -> (r: &mut Self)
        ensures
            r.name == old(self).name,
            r.stack_size == stack_size,
            r.priority == old(self).priority,
            r.core_affinity_mask == old(self).core_affinity_mask,
            *final(self) == *final(r),
    {
        self.stack_size = stack_size;
        self
    }

    /// Set the task's priority.
    pub fn priority(&mut self, priority: TaskPriority) -> (r: &mut Self)
        ensures
            r.name == old(self).name,
            r.stack_size == old(self).stack_size,
            r.priority == priority,
            r.core_affinity_mask == old(self).core_affinity_mask,
            *final(self) == *final(r),
    {
        self.priority = priority;
        self
    }

    /// Set the core affinity mask, for kernels that run on several cores.
    pub fn core_affinity(&mut self, core_affinity_mask: UBaseType) -> (r: &mut Self)
        ensures
            r.name == old(self).name,
            r.stack_size == old(self).stack_size,
            r.priority == old(self).priority,
            r.core_affinity_mask == core_affinity_mask,
            *final(self) == *final(r),
    {
        self.core_affinity_mask = core_affinity_mask;
        self
    }

    /// The nul-terminated name buffer to hand to the kernel's task factory.
    pub fn kernel_name(&self) -> (r: Vec<u8>)
        ensures
            r@ == kernel_name_bytes(encode_utf8(self.name@)),
    {
        kernel_name(self.name.as_str())
    }
}

} // verus!
