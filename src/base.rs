use vstd::prelude::*;

verus! {

/// The kernel's signed base integer.
pub type BaseType = i32;

/// The kernel's unsigned base integer.
pub type UBaseType = u32;

/// The kernel's stack word.
pub type StackType = u32;

/// The kernel's "true" for a `BaseType` flag.
pub const PD_TRUE: BaseType = 1;

/// Error kinds of the library.
#[derive(Copy, Clone, Debug, PartialEq, Eq, Structural)]
pub enum FreeRtosError {
    OutOfMemory,
    QueueSendTimeout,
    QueueReceiveTimeout,
    MutexTimeout,
    Timeout,
    QueueFull,
    StringConversionError,
    TaskNotFound,
    InvalidQueueSize,
    ProcessorHasShutDown,
}

/// Run state of a task, as the kernel reports it.
#[derive(Copy, Clone, Debug, PartialEq, Eq, Structural)]
pub enum TaskState {
    /// A task is querying the state of itself, so must be running.
    Running,
    /// The task being queried is in a ready or pending ready list.
    Ready,
    /// The task being queried is in the Blocked state.
    Blocked,
    /// The task being queried is in the Suspended state, or is in the Blocked
    /// state with an infinite time out.
    Suspended,
    /// The task being queried has been deleted, but its control block has
    /// not yet been freed.
    Deleted,
}

/// The state that the kernel's numeric code `code` stands for.
pub open spec fn state_of_code(code: u8) -> Option<TaskState> {
    if code == 0 {
        Some(TaskState::Running)
    } else if code == 1 {
        Some(TaskState::Ready)
    } else if code == 2 {
        Some(TaskState::Blocked)
    } else if code == 3 {
        Some(TaskState::Suspended)
    } else if code == 4 {
        Some(TaskState::Deleted)
    } else {
        None
    }
}

impl TaskState {
    /// Decodes the kernel's numeric task state; codes the kernel does not
    /// define give `None`.
    pub fn from_code(code: u8) -> (r: Option<TaskState>)
        ensures
            r == state_of_code(code),
    {
        match code {
            0 => Some(TaskState::Running),
            1 => Some(TaskState::Ready),
            2 => Some(TaskState::Blocked),
            3 => Some(TaskState::Suspended),
            4 => Some(TaskState::Deleted),
            _ => None,
        }
    }

    /// The kernel's numeric code of this state.
    pub fn code(&self) -> (r: u8)
        ensures
            state_of_code(r) == Some(*self),
    {
        match self {
            TaskState::Running => 0,
            TaskState::Ready => 1,
            TaskState::Blocked => 2,
            TaskState::Suspended => 3,
            TaskState::Deleted => 4,
        }
    }

    /// The state's name as a task report shows it.
    pub fn name(&self) -> (r: &'static str)
        ensures
            r@ == state_name(*self),
    {
        match self {
            TaskState::Running => {
                proof {
                    reveal_strlit("Running");
                }
                "Running"
            },
            TaskState::Ready => {
                proof {
                    reveal_strlit("Ready");
                }
                "Ready"
            },
            TaskState::Blocked => {
                proof {
                    reveal_strlit("Blocked");
                }
                "Blocked"
            },
            TaskState::Suspended => {
                proof {
                    reveal_strlit("Suspended");
                }
                "Suspended"
            },
            TaskState::Deleted => {
                proof {
                    reveal_strlit("Deleted");
                }
                "Deleted"
            },
        }
    }
}

/// The name of a task state in reports.
pub open spec fn state_name(s: TaskState) -> Seq<char> {
    match s {
        TaskState::Running => seq!['R', 'u', 'n', 'n', 'i', 'n', 'g'],
        TaskState::Ready => seq!['R', 'e', 'a', 'd', 'y'],
        TaskState::Blocked => seq!['B', 'l', 'o', 'c', 'k', 'e', 'd'],
        TaskState::Suspended => seq!['S', 'u', 's', 'p', 'e', 'n', 'd', 'e', 'd'],
        TaskState::Deleted => seq!['D', 'e', 'l', 'e', 't', 'e', 'd'],
    }
}

/// What a kernel operation's success flag means: `Ok` when it succeeded,
/// else the error `err`.
pub open spec fn outcome(succeeded: bool, err: FreeRtosError) -> Result<(), FreeRtosError> {
    if succeeded {
        Ok(())
    } else {
        Err(err)
    }
}

/// Turns a kernel operation's success flag into a result.
pub fn outcome_of(succeeded: bool, err: FreeRtosError) -> (r: Result<(), FreeRtosError>)
    ensures
        r == outcome(succeeded, err),
{
    if succeeded {
        Ok(())
    } else {
        Err(err)
    }
}

} // verus!
