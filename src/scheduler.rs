use vstd::prelude::*;

use crate::base::{state_name, state_of_code, StackType, TaskState, UBaseType};
use crate::task::{Task, TaskPriority};
use crate::text::{
    decimal, decimal_string, pad_left, pad_right, push_decimal, push_padded_left,
    push_padded_right,
};

verus! {

/// One task's entry in a snapshot of the kernel's task table.
pub struct TaskStatus {
    pub task: Task,
    pub name: String,
    pub task_number: UBaseType,
    pub task_state: TaskState,
    pub current_priority: TaskPriority,
    pub base_priority: TaskPriority,
    pub run_time_counter: u32,
    pub stack_high_water_mark: StackType,
}

/// A snapshot of the kernel's task table.
pub struct SchedulerState {
    pub tasks: Vec<TaskStatus>,
    pub total_run_time: u32,
}

/// A task record as the kernel's system-state call fills it, as plain values.
pub struct KernelTaskRecord {
    pub handle: usize,
    pub name: String,
    pub task_number: UBaseType,
    pub state_code: u32,
    pub current_priority: UBaseType,
    pub base_priority: UBaseType,
    pub run_time_counter: u32,
    pub stack_high_water_mark: StackType,
}

/// The priority that the kernel's priority number `p` stands for; numbers
/// beyond the priority type's range keep their low byte.
pub open spec fn priority_of(p: UBaseType) -> TaskPriority {
    TaskPriority((p % 256) as u8)
}

/// The state that the kernel's state code `code` stands for.
pub open spec fn state_of_record(code: u32) -> Option<TaskState> {
    if code < 256 {
        state_of_code(code as u8)
    } else {
        None
    }
}

/// Whether `t` is the snapshot entry for the kernel record `rec`.
pub open spec fn decodes_to(rec: KernelTaskRecord, t: TaskStatus) -> bool {
    &&& state_of_record(rec.state_code) == Some(t.task_state)
    &&& t.task.handle() == rec.handle
    &&& t.name@ == rec.name@
    &&& t.task_number == rec.task_number
    &&& t.current_priority == priority_of(rec.current_priority)
    &&& t.base_priority == priority_of(rec.base_priority)
    &&& t.run_time_counter == rec.run_time_counter
    &&& t.stack_high_water_mark == rec.stack_high_water_mark
}

impl TaskStatus {
    /// The snapshot entry for a kernel record, or `None` where the record's
    /// state code is none that the kernel defines for a listed task.
    pub fn from_record(rec: &KernelTaskRecord) -> (r: Option<TaskStatus>)
        ensures
            r is Some <==> state_of_record(rec.state_code) is Some,
            r matches Some(t) ==> decodes_to(*rec, t),
    {
        if rec.state_code >= 256 {
            return None;
        }
        match TaskState::from_code(rec.state_code as u8) {
            Some(task_state) => Some(
                TaskStatus {
                    task: Task::from_raw(rec.handle),
                    name: rec.name.clone(),
                    task_number: rec.task_number,
                    task_state,
                    current_priority: TaskPriority((rec.current_priority % 256) as u8),
                    base_priority: TaskPriority((rec.base_priority % 256) as u8),
                    run_time_counter: rec.run_time_counter,
                    stack_high_water_mark: rec.stack_high_water_mark,
                },
            ),
            None => None,
        }
    }
}

/// How many task records a snapshot reads: the number the caller asked
/// for, or by default as many as the kernel has tasks now.
pub fn task_slots(requested: Option<usize>, current_tasks: usize) -> (r: usize)
    ensures
        r == match requested {
            Some(n) => n,
            None => current_tasks,
        },
{
    match requested {
        Some(n) => n,
        None => current_tasks,
    }
}

/// Builds the snapshot of the kernel's task table from the records that the
/// kernel's system-state call filled and the total run time it reported.
/// The tasks keep the kernel's order; a record with an undefined state code
/// makes the whole snapshot `None`.
pub fn get_all_tasks(records: &Vec<KernelTaskRecord>, total_run_time: u32) -> (r: Option<
    SchedulerState,
>)
    ensures
        r is Some <==> forall|k: int|
            0 <= k < records@.len() ==> (#[trigger] state_of_record(records@[k].state_code)) is Some,
        r matches Some(s) ==> {
            &&& s.total_run_time == total_run_time
            &&& s.tasks@.len() == records@.len()
            &&& forall|k: int| 0 <= k < records@.len() ==> decodes_to(records@[k], #[trigger] s.tasks@[k])
        },
{
    let mut tasks: Vec<TaskStatus> = Vec::new();
    let mut i: usize = 0;
    while i < records.len()
        invariant
            i <= records@.len(),
            tasks@.len() == i,
            forall|k: int| 0 <= k < i ==> (#[trigger] state_of_record(records@[k].state_code)) is Some,
            forall|k: int| 0 <= k < i ==> decodes_to(records@[k], #[trigger] tasks@[k]),
        decreases records.len() - i,
    {
        match TaskStatus::from_record(&records[i]) {
            Some(t) => {
                tasks.push(t);
            },
            None => {
                return None;
            },
        }
        i = i + 1;
    }
    Some(SchedulerState { tasks, total_run_time })
}

/// The column separator of the task report.
pub open spec fn column_separator() -> Seq<char> {
    seq![' ', '|', ' ']
}

/// The end of a report line.
pub open spec fn line_end() -> Seq<char> {
    seq!['\r', '\n']
}

/// One line of the task report, from the text of its seven cells.
pub open spec fn report_line(
    id: Seq<char>,
    name: Seq<char>,
    state: Seq<char>,
    priority: Seq<char>,
    stack: Seq<char>,
    cpu_abs: Seq<char>,
    cpu_rel: Seq<char>,
) -> Seq<char> {
    pad_right(id, 6) + column_separator() + pad_right(name, 16) + column_separator() + pad_right(
        state,
        9,
    ) + column_separator() + pad_right(priority, 8) + column_separator() + pad_left(stack, 10)
        + column_separator() + pad_left(cpu_abs, 10) + column_separator() + pad_left(cpu_rel, 4)
        + line_end()
}

/// A task's share of the total run time, in whole percent, where it can be
/// computed: the total is not zero and the task's counter does not exceed it.
pub open spec fn cpu_percent(run_time: u32, total_run_time: u32) -> Option<int> {
    if total_run_time > 0 && run_time <= total_run_time {
        Some((run_time * 100) / (total_run_time as int))
    } else {
        None
    }
}

/// The text of the relative CPU time cell: the percentage right-aligned in
/// three characters and followed by `%`, with `<1` for a task that ran but
/// for less than one percent; `-` where no percentage can be computed.
pub open spec fn cpu_cell(run_time: u32, total_run_time: u32) -> Seq<char> {
    match cpu_percent(run_time, total_run_time) {
        Some(p) => {
            let digits = if p == 0 && run_time > 0 {
                seq!['<', '1']
            } else {
                decimal(p as nat)
            };
            pad_left(digits, 3) + seq!['%']
        },
        None => seq!['-'],
    }
}

/// The report line of task `t`.
pub open spec fn task_line(t: TaskStatus, total_run_time: u32) -> Seq<char> {
    report_line(
        decimal(t.task_number as nat),
        t.name@,
        state_name(t.task_state),
        decimal(t.current_priority.0 as nat),
        decimal(t.stack_high_water_mark as nat),
        decimal(t.run_time_counter as nat),
        cpu_cell(t.run_time_counter, total_run_time),
    )
}

/// The report lines of the tasks `ts`, in order.
pub open spec fn task_lines(ts: Seq<TaskStatus>, total_run_time: u32) -> Seq<char>
    decreases ts.len(),
{
    if ts.len() == 0 {
        Seq::empty()
    } else {
        task_lines(ts.drop_last(), total_run_time) + task_line(ts.last(), total_run_time)
    }
}

/// The title and column headings of the task report.
pub open spec fn report_head() -> Seq<char> {
    "FreeRTOS tasks\r\n"@ + report_line(
        "ID"@,
        "Name"@,
        "State"@,
        "Priority"@,
        "Stack left"@,
        "CPU"@,
        "%"@,
    )
}

/// The closing line of the task report, present when run time is counted.
pub open spec fn report_foot(total_run_time: u32) -> Seq<char> {
    if total_run_time > 0 {
        "Total run time: "@ + decimal(total_run_time as nat) + line_end()
    } else {
        Seq::empty()
    }
}

/// The full task report of a snapshot.
pub open spec fn report_text(tasks: Seq<TaskStatus>, total_run_time: u32) -> Seq<char> {
    report_head() + task_lines(tasks, total_run_time) + report_foot(total_run_time)
}

fn push_separator(out: &mut String)
    ensures
        final(out)@ == old(out)@ + column_separator(),
{
    proof {
        reveal_strlit(" | ");
    }
    out.append(" | ");
}

/// Appends one report line, built from the text of its cells, to `out`.
#[verifier::rlimit(50)]
fn push_report_line(
    out: &mut String,
    id: &str,
    name: &str,
    state: &str,
    priority: &str,
    stack: &str,
    cpu_abs: &str,
    cpu_rel: &str,
)
    ensures
        final(out)@ == old(out)@ + report_line(
            id@,
            name@,
            state@,
            priority@,
            stack@,
            cpu_abs@,
            cpu_rel@,
        ),
{
    let ghost start = old(out)@;
    let ghost sep = column_separator();
    push_padded_right(out, id, 6);
    let ghost line = pad_right(id@, 6);
    push_separator(out);
    proof {
        assert(out@ =~= start + (line + sep));
        line = line + sep;
    }
    push_padded_right(out, name, 16);
    proof {
        assert(out@ =~= start + (line + pad_right(name@, 16)));
        line = line + pad_right(name@, 16);
    }
    push_separator(out);
    proof {
        assert(out@ =~= start + (line + sep));
        line = line + sep;
    }
    push_padded_right(out, state, 9);
    proof {
        assert(out@ =~= start + (line + pad_right(state@, 9)));
        line = line + pad_right(state@, 9);
    }
    push_separator(out);
    proof {
        assert(out@ =~= start + (line + sep));
        line = line + sep;
    }
    push_padded_right(out, priority, 8);
    proof {
        assert(out@ =~= start + (line + pad_right(priority@, 8)));
        line = line + pad_right(priority@, 8);
    }
    push_separator(out);
    proof {
        assert(out@ =~= start + (line + sep));
        line = line + sep;
    }
    push_padded_left(out, stack, 10);
    proof {
        assert(out@ =~= start + (line + pad_left(stack@, 10)));
        line = line + pad_left(stack@, 10);
    }
    push_separator(out);
    proof {
        assert(out@ =~= start + (line + sep));
        line = line + sep;
    }
    push_padded_left(out, cpu_abs, 10);
    proof {
        assert(out@ =~= start + (line + pad_left(cpu_abs@, 10)));
        line = line + pad_left(cpu_abs@, 10);
    }
    push_separator(out);
    proof {
        assert(out@ =~= start + (line + sep));
        line = line + sep;
    }
    push_padded_left(out, cpu_rel, 4);
    proof {
        assert(out@ =~= start + (line + pad_left(cpu_rel@, 4)));
        line = line + pad_left(cpu_rel@, 4);
        reveal_strlit("\r\n");
    }
    out.append("\r\n");
    proof {
        assert(out@ =~= start + (line + line_end()));
    }
}

/// The text of the relative CPU time cell of a task that ran for
/// `run_time` out of `total_run_time`.
pub fn cpu_usage_text(run_time: u32, total_run_time: u32) -> (r: String)
    ensures
        r@ == cpu_cell(run_time, total_run_time),
{
    if total_run_time > 0 && run_time <= total_run_time {
        let p: u64 = (run_time as u64) * 100 / (total_run_time as u64);
        let mut s = String::new();
        if p == 0 && run_time > 0 {
            proof {
                reveal_strlit("<1");
            }
            push_padded_left(&mut s, "<1", 3);
        } else {
            let digits = decimal_string(p);
            push_padded_left(&mut s, digits.as_str(), 3);
        }
        proof {
            reveal_strlit("%");
        }
        s.append("%");
        proof {
            assert(s@ =~= cpu_cell(run_time, total_run_time));
        }
        s
    } else {
        proof {
            reveal_strlit("-");
        }
        let s = "-".to_owned();
        proof {
            assert(s@ =~= cpu_cell(run_time, total_run_time));
        }
        s
    }
}

impl TaskStatus {
    /// Appends the task's report line to `out`.
    fn push_line(&self, out: &mut String, total_run_time: u32)
        ensures
            final(out)@ == old(out)@ + task_line(*self, total_run_time),
    {
        let id = decimal_string(self.task_number as u64);
        let priority = decimal_string(self.current_priority.0 as u64);
        let stack = decimal_string(self.stack_high_water_mark as u64);
        let cpu_abs = decimal_string(self.run_time_counter as u64);
        let cpu_rel = cpu_usage_text(self.run_time_counter, total_run_time);
        push_report_line(
            out,
            id.as_str(),
            self.name.as_str(),
            self.task_state.name(),
            priority.as_str(),
            stack.as_str(),
            cpu_abs.as_str(),
            cpu_rel.as_str(),
        );
    }
}

impl SchedulerState {
    /// The task table as text: a title line, a line of column headings, one
    /// line per task in snapshot order, and the total run time when it is
    /// counted. Every line ends in `\r\n`.
    pub fn report(&self) -> (r: String)
        ensures
            r@ == report_text(self.tasks@, self.total_run_time),
    {
        let mut out = String::new();
        out.append("FreeRTOS tasks\r\n");
        push_report_line(&mut out, "ID", "Name", "State", "Priority", "Stack left", "CPU", "%");
        proof {
            assert(out@ =~= report_head() + task_lines(self.tasks@.subrange(0, 0), self.total_run_time));
        }
        let mut i: usize = 0;
        while i < self.tasks.len()
            invariant
                i <= self.tasks.len(),
                out@ == report_head() + task_lines(
                    self.tasks@.subrange(0, i as int),
                    self.total_run_time,
                ),
            decreases self.tasks.len() - i,
        {
            self.tasks[i].push_line(&mut out, self.total_run_time);
            proof {
                let done = self.tasks@.subrange(0, i + 1);
                assert(done.drop_last() =~= self.tasks@.subrange(0, i as int));
                assert(done.last() == self.tasks@[i as int]);
                assert(out@ =~= report_head() + task_lines(done, self.total_run_time));
            }
            i = i + 1;
        }
        if self.total_run_time > 0 {
            out.append("Total run time: ");
            push_decimal(&mut out, self.total_run_time as u64);
            proof {
                reveal_strlit("\r\n");
            }
            out.append("\r\n");
        }
        proof {
            assert(self.tasks@.subrange(0, self.tasks.len() as int) =~= self.tasks@);
            assert(out@ =~= report_text(self.tasks@, self.total_run_time));
        }
        out
    }
}

} // verus!
