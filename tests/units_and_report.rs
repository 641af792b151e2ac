use freertos_rust::base::{FreeRtosError, TaskState};
use freertos_rust::scheduler::{cpu_usage_text, get_all_tasks, task_slots, KernelTaskRecord, SchedulerState, TaskStatus};
use freertos_rust::task::{Task, TaskPriority};
use freertos_rust::units::{Ticks, MAX_DELAY, TICK_PERIOD_MS};

#[test]
fn milliseconds_round_trip_rounds_down_to_tick_period() {
    for ms in [0u32, 1, 7, 999, 1000, 123_456] {
        let back = Ticks::milliseconds(ms).to_milliseconds();
        assert_eq!(back, ms / TICK_PERIOD_MS * TICK_PERIOD_MS);
        assert!(back <= ms);
    }
}

#[test]
fn ticks_constructors() {
    assert_eq!(Ticks::new(42).ticks, 42);
    assert_eq!(Ticks::zero().ticks, 0);
    assert_eq!(Ticks::infinite().ticks, MAX_DELAY);
    assert_eq!(Ticks::seconds(3).ticks, 3000 / TICK_PERIOD_MS);
    assert_eq!(Ticks::milliseconds(250).ticks, 250 / TICK_PERIOD_MS);
}

#[test]
fn longer_wait_is_never_fewer_ticks() {
    let d1 = Ticks::milliseconds(10);
    let d2 = Ticks::milliseconds(20);
    assert!(d1.ticks <= d2.ticks);
}

#[test]
fn cpu_usage_cells() {
    assert_eq!(cpu_usage_text(5, 0), "-");
    assert_eq!(cpu_usage_text(11, 10), "-");
    assert_eq!(cpu_usage_text(1, 1000), " <1%");
    assert_eq!(cpu_usage_text(0, 1000), "  0%");
    assert_eq!(cpu_usage_text(500, 1000), " 50%");
    assert_eq!(cpu_usage_text(1000, 1000), "100%");
    assert_eq!(cpu_usage_text(999, 1000), " 99%");
}

fn status(name: &str, number: u32, state: TaskState, prio: u8, run: u32, stack: u32) -> TaskStatus {
    TaskStatus {
        task: Task::from_raw(0x1000 + number as usize),
        name: name.to_string(),
        task_number: number,
        task_state: state,
        current_priority: TaskPriority(prio),
        base_priority: TaskPriority(prio),
        run_time_counter: run,
        stack_high_water_mark: stack,
    }
}

fn expected_line(id: &str, name: &str, state: &str, prio: &str, stack: &str, abs: &str, rel: &str) -> String {
    format!(
        "{: <6} | {: <16} | {: <9} | {: <8} | {: >10} | {: >10} | {: >4}\r\n",
        id, name, state, prio, stack, abs, rel
    )
}

#[test]
fn report_matches_table_layout() {
    let state = SchedulerState {
        tasks: vec![
            status("idle", 1, TaskState::Ready, 0, 900, 120),
            status("worker_with_a_long_name", 2, TaskState::Blocked, 3, 1, 64),
        ],
        total_run_time: 1000,
    };
    let mut expected = String::from("FreeRTOS tasks\r\n");
    expected += &expected_line("ID", "Name", "State", "Priority", "Stack left", "CPU", "%");
    expected += &expected_line("1", "idle", "Ready", "0", "120", "900", " 90%");
    expected += &expected_line("2", "worker_with_a_long_name", "Blocked", "3", "64", "1", " <1%");
    expected += "Total run time: 1000\r\n";
    assert_eq!(state.report(), expected);
}

#[test]
fn report_without_run_time_has_no_total_line() {
    let state = SchedulerState { tasks: vec![status("t", 7, TaskState::Running, 2, 0, 5)], total_run_time: 0 };
    let mut expected = String::from("FreeRTOS tasks\r\n");
    expected += &expected_line("ID", "Name", "State", "Priority", "Stack left", "CPU", "%");
    expected += &expected_line("7", "t", "Running", "2", "5", "0", "-");
    assert_eq!(state.report(), expected);
}

#[test]
fn empty_snapshot_report() {
    let state = SchedulerState { tasks: vec![], total_run_time: 0 };
    let expected = format!(
        "FreeRTOS tasks\r\n{}",
        expected_line("ID", "Name", "State", "Priority", "Stack left", "CPU", "%")
    );
    assert_eq!(state.report(), expected);
}

fn record(name: &str, state_code: u32, prio: u32) -> KernelTaskRecord {
    KernelTaskRecord {
        handle: 0x2000,
        name: name.to_string(),
        task_number: 4,
        state_code,
        current_priority: prio,
        base_priority: 1,
        run_time_counter: 77,
        stack_high_water_mark: 300,
    }
}

#[test]
fn snapshot_decodes_records_in_order() {
    let records = vec![record("a", 0, 2), record("b", 3, 300)];
    let snapshot = get_all_tasks(&records, 555).unwrap();
    assert_eq!(snapshot.total_run_time, 555);
    assert_eq!(snapshot.tasks.len(), 2);
    assert_eq!(snapshot.tasks[0].name, "a");
    assert_eq!(snapshot.tasks[0].task_state, TaskState::Running);
    assert_eq!(snapshot.tasks[0].current_priority, TaskPriority(2));
    assert_eq!(snapshot.tasks[1].task_state, TaskState::Suspended);
    assert_eq!(snapshot.tasks[1].current_priority, TaskPriority(44));
    assert_eq!(snapshot.tasks[1].base_priority, TaskPriority(1));
    assert_eq!(snapshot.tasks[1].run_time_counter, 77);
    assert_eq!(snapshot.tasks[1].stack_high_water_mark, 300);
}

#[test]
fn snapshot_with_undefined_state_is_refused() {
    let records = vec![record("a", 1, 2), record("bad", 5, 1)];
    assert!(get_all_tasks(&records, 0).is_none());
    let big = vec![record("a", 256, 1)];
    assert!(get_all_tasks(&big, 0).is_none());
}

#[test]
fn task_state_codes_round_trip() {
    for code in 0u8..5 {
        assert_eq!(TaskState::from_code(code).unwrap().code(), code);
    }
    assert_eq!(TaskState::from_code(5), None);
    assert_eq!(TaskState::Deleted.name(), "Deleted");
}

#[test]
fn error_kinds_are_distinct() {
    assert_ne!(FreeRtosError::QueueSendTimeout, FreeRtosError::QueueReceiveTimeout);
    assert_eq!(FreeRtosError::OutOfMemory, FreeRtosError::OutOfMemory);
}

#[test]
fn ticks_description() {
    assert_eq!(Ticks::new(250).describe(), format!("{} ms (250 ticks)", 250 * TICK_PERIOD_MS));
    assert_eq!(Ticks::zero().describe(), "0 ms (0 ticks)");
}

#[test]
fn snapshot_size_defaults_to_current_tasks() {
    assert_eq!(task_slots(Some(3), 9), 3);
    assert_eq!(task_slots(None, 9), 9);
}
