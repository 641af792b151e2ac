use freertos_rust::base::FreeRtosError;
use freertos_rust::critical::{CriticalSection, ExclusiveData};
use freertos_rust::delays::{TaskDelay, TaskDelayPeriodic};
use freertos_rust::isr::InterruptContext;
use freertos_rust::mutex::{Lockable, Mutex, Normal, Recursive, RecursiveMutex};
use freertos_rust::queue::Queue;
use freertos_rust::semaphore::Semaphore;
use freertos_rust::task::{
    get_tick_count_duration, kernel_name, NotifyAction, Task, TaskNotification, TaskPriority,
    MAX_TASK_NAME_LEN,
};
use freertos_rust::timers::Timer;
use freertos_rust::units::Ticks;
use freertos_rust::utils::strlen;

#[test]
fn interrupt_context_keeps_a_yield_request() {
    let mut ctx = InterruptContext::new();
    assert!(!ctx.yield_requested());
    ctx.record_woken(false);
    assert!(!ctx.yield_requested());
    ctx.record_woken(true);
    ctx.record_woken(false);
    assert!(ctx.yield_requested());
}

#[test]
fn exclusive_data_guard_writes_through() {
    let mut cell = ExclusiveData::new(10u32);
    {
        let guard = cell.lock(CriticalSection::from_saved_state(3)).unwrap();
        *guard.data += 5;
        assert_eq!(guard.unlock().saved_state, 3);
    }
    let mut ctx = InterruptContext::new();
    let guard = cell.lock_from_isr(&mut ctx).unwrap();
    assert_eq!(*guard.data, 15);
    assert!(!ctx.yield_requested());
}

#[test]
fn mutex_lock_gives_access_only_when_taken() {
    let mut m: Mutex<Vec<u8>> = Mutex::new(vec![1, 2], 0x80).unwrap();
    assert_eq!(m.handle(), 0x80);
    assert!(matches!(m.lock(false), Err(FreeRtosError::MutexTimeout)));
    {
        let guard = m.lock(true).unwrap();
        assert_eq!(guard.handle(), 0x80);
        guard.data.push(3);
    }
    let (kernel_mutex, value) = m.into_inner();
    assert_eq!(kernel_mutex.handle(), 0x80);
    assert_eq!(value, vec![1, 2, 3]);
}

#[test]
fn mutex_creation_failure() {
    assert!(matches!(Mutex::new(5u8, 0), Err(FreeRtosError::OutOfMemory)));
    assert!(matches!(RecursiveMutex::new(5u8, 0), Err(FreeRtosError::OutOfMemory)));
    let r: RecursiveMutex<u8> = RecursiveMutex::new(5u8, 9).unwrap();
    assert_eq!(r.handle(), 9);
    assert!(Recursive::is_recursive());
    assert!(!Normal::is_recursive());
    assert_eq!(Normal::create(7).unwrap().take(false), Err(FreeRtosError::MutexTimeout));
}

#[test]
fn semaphore_outcomes() {
    assert!(matches!(Semaphore::new_binary(0), Err(FreeRtosError::OutOfMemory)));
    let s = Semaphore::new_binary(0x30).unwrap();
    assert_eq!(s.max_count(), 1);
    assert_eq!(s.raw_handle(), 0x30);
    assert!(matches!(s.lock(false), Err(FreeRtosError::Timeout)));
    assert_eq!(s.lock(true).unwrap().handle(), 0x30);
    assert_eq!(s.give(true), Ok(()));
    assert_eq!(s.give(false), Err(FreeRtosError::QueueFull));
    assert_eq!(s.take(false), Err(FreeRtosError::Timeout));
    let mut ctx = InterruptContext::new();
    assert_eq!(s.give_from_isr(&mut ctx, false, false), Err(FreeRtosError::QueueFull));
    assert!(!ctx.yield_requested());
    assert_eq!(s.give_from_isr(&mut ctx, true, true), Ok(()));
    assert!(ctx.yield_requested());
    let c = Semaphore::new_counting(5, 2, 0x31).unwrap();
    assert_eq!(c.max_count(), 5);
}

#[test]
fn queue_creation_is_validated() {
    assert_eq!(Queue::<u32>::creation_request(0), Err(FreeRtosError::InvalidQueueSize));
    assert_eq!(Queue::<u32>::creation_request(8), Ok((8, 4)));
    assert_eq!(Queue::<[u8; 3]>::creation_request(1), Ok((1, 3)));
    assert_eq!(
        Queue::<u8>::creation_request(u32::MAX as usize + 1),
        Err(FreeRtosError::InvalidQueueSize)
    );
    assert!(matches!(Queue::<u8>::from_created(4, 0), Err(FreeRtosError::OutOfMemory)));
}

#[test]
fn queue_outcomes() {
    let q = Queue::<u16>::from_created(2, 0x50).unwrap();
    assert_eq!(q.capacity(), 2);
    assert_eq!(q.raw_handle(), 0x50);
    assert_eq!(q.send(true), Ok(()));
    assert_eq!(q.send(false), Err(FreeRtosError::QueueSendTimeout));
    assert_eq!(q.receive(Some(7)), Ok(7));
    assert_eq!(q.receive(None), Err(FreeRtosError::QueueReceiveTimeout));
    let mut ctx = InterruptContext::new();
    assert_eq!(q.send_from_isr(&mut ctx, false, false), Err(FreeRtosError::QueueFull));
    assert_eq!(q.send_from_isr(&mut ctx, true, true), Ok(()));
    assert!(ctx.yield_requested());
}

#[test]
fn periodic_delay_runs_once_per_period() {
    let mut p = TaskDelayPeriodic::new(Ticks::new(30), 100);
    assert!(!p.should_run(129));
    assert!(p.should_run(130));
    assert!(!p.should_run(159));
    assert!(p.should_run(160));
    p.set_period(Ticks::new(5));
    assert!(p.should_run(165));
    p.reset(200);
    assert!(!p.should_run(204));
}

#[test]
fn periodic_delay_across_tick_wrap() {
    let mut p = TaskDelayPeriodic::new(Ticks::new(10), u32::MAX - 3);
    assert!(!p.should_run(5));
    assert!(p.should_run(6));
}

#[test]
fn task_delay_tracks_wake_time() {
    let mut d = TaskDelay::new(40);
    assert_eq!(d.last_wake_time(), 40);
    d.woke_at(90);
    assert_eq!(d.last_wake_time(), 90);
    assert_eq!(get_tick_count_duration(1234), Ticks::new(1234));
}

#[test]
fn notifications_map_to_kernel_actions() {
    assert_eq!(TaskNotification::NoAction.to_freertos(), (0, NotifyAction::NoAction));
    assert_eq!(TaskNotification::SetBits(0b101).to_freertos(), (0b101, NotifyAction::SetBits));
    assert_eq!(TaskNotification::Increment.to_freertos(), (0, NotifyAction::Increment));
    assert_eq!(
        TaskNotification::OverwriteValue(9).to_freertos(),
        (9, NotifyAction::SetValueWithOverwrite)
    );
    assert_eq!(TaskNotification::SetValue(4).to_freertos(), (4, NotifyAction::SetValueWithoutOverwrite));
    assert_eq!(NotifyAction::SetValueWithoutOverwrite.code(), 4);
    assert_eq!(NotifyAction::NoAction.code(), 0);
    assert_eq!(TaskPriority(7).to_freertos(), 7);
}

#[test]
fn second_set_value_is_the_kernel_try_set() {
    // Both consecutive SetValue notifications ask the kernel for a set that
    // does not overwrite a pending value, so only the first can apply.
    let first = TaskNotification::SetValue(1).to_freertos();
    let second = TaskNotification::SetValue(2).to_freertos();
    assert_eq!(first.1, NotifyAction::SetValueWithoutOverwrite);
    assert_eq!(second.1, NotifyAction::SetValueWithoutOverwrite);
}

#[test]
fn task_outcomes() {
    let t = Task::from_raw(0x70);
    assert_eq!(t.set_notification_value(3), (3, NotifyAction::SetValueWithOverwrite));
    assert_eq!(t.wait_for_notification(true, 12), Ok(12));
    assert_eq!(t.wait_for_notification(false, 12), Err(FreeRtosError::Timeout));
    let mut ctx = InterruptContext::new();
    assert_eq!(t.notify_from_isr(&mut ctx, false, false), Err(FreeRtosError::QueueFull));
    assert_eq!(t.notify_from_isr(&mut ctx, true, true), Ok(()));
    assert!(ctx.yield_requested());
    assert_eq!(t.into_raw(), 0x70);
    assert!(matches!(Task::from_spawn(false, 0x10), Err(FreeRtosError::OutOfMemory)));
    assert!(matches!(Task::from_spawn(true, 0), Err(FreeRtosError::OutOfMemory)));
    assert_eq!(Task::from_spawn(true, 0x10).unwrap().raw_handle(), 0x10);
}

#[test]
fn task_builder_defaults_and_setters() {
    let mut b = Task::new();
    assert_eq!(b.name, "rust_task");
    assert_eq!(b.stack_size, 1024);
    assert_eq!(b.priority, TaskPriority(1));
    assert_eq!(b.core_affinity_mask, u32::MAX);
    b.name("blinky").stack_size(256).priority(TaskPriority(3)).core_affinity(0b01);
    assert_eq!(b.name, "blinky");
    assert_eq!(b.stack_size, 256);
    assert_eq!(b.priority, TaskPriority(3));
    assert_eq!(b.core_affinity_mask, 1);
    let buf = b.kernel_name();
    assert_eq!(&buf[..7], b"blinky\0");
    assert_eq!(buf.len(), MAX_TASK_NAME_LEN);
}

#[test]
fn kernel_name_truncates_long_names() {
    let buf = kernel_name("a_name_longer_than_sixteen");
    assert_eq!(buf.len(), MAX_TASK_NAME_LEN);
    assert_eq!(&buf[..15], b"a_name_longer_t");
    assert_eq!(buf[15], 0);
    assert_eq!(kernel_name(""), vec![0u8; MAX_TASK_NAME_LEN]);
}

#[test]
fn strlen_stops_at_nul() {
    let text: Vec<chlorine::c_char> = b"idle\0junk".iter().map(|b| *b as chlorine::c_char).collect();
    assert_eq!(strlen(&text), 4);
    let no_nul: Vec<chlorine::c_char> = b"abc".iter().map(|b| *b as chlorine::c_char).collect();
    assert_eq!(strlen(&no_nul), 3);
    assert_eq!(strlen(&[]), 0);
}

#[test]
fn timer_builder_defaults_and_setters() {
    let mut b = Timer::new(Ticks::new(50));
    assert_eq!(b.name, "timer");
    assert_eq!(b.period, Ticks::new(50));
    assert!(b.auto_reload);
    b.set_name("tick").set_period(Ticks::new(7)).set_auto_reload(false);
    assert_eq!(b.name, "tick");
    assert_eq!(b.period, Ticks::new(7));
    assert!(!b.auto_reload);
    assert_eq!(&b.kernel_name()[..5], b"tick\0");
}

#[test]
fn dropped_timer_releases_its_callback_once() {
    let t = Timer::from_created(0x90).unwrap();
    assert_eq!(t.raw_handle(), 0x90);
    let plan = t.teardown().unwrap();
    assert_eq!(plan.handle, 0x90);
    assert_eq!(plan.block_time, Ticks::milliseconds(1000));
}

#[test]
fn detached_timer_releases_nothing() {
    let mut t = Timer::from_created(0x91).unwrap();
    t.detach();
    assert_eq!(t.teardown(), None);
    assert_eq!(Timer::for_callback(0x91).teardown(), None);
    assert!(matches!(Timer::from_created(0), Err(FreeRtosError::OutOfMemory)));
}

#[test]
fn timer_command_outcomes() {
    let t = Timer::for_callback(0x92);
    assert_eq!(t.start(true), Ok(()));
    assert_eq!(t.start(false), Err(FreeRtosError::Timeout));
    assert_eq!(t.stop(false), Err(FreeRtosError::Timeout));
    assert_eq!(t.change_period(false), Err(FreeRtosError::Timeout));
}
