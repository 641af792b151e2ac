//! A verified core for a safe task and synchronisation layer over a
//! preemptive real-time kernel.
//!
//! The kernel itself is an external service: every call into it is made by
//! the surrounding application, which hands the kernel's answers (handles,
//! success flags, tick counts, received items) to the functions here. This
//! library decides, from those answers, what each operation returns, which
//! kernel objects a value owns, and what must be released when.

pub mod units;
pub mod base;
pub mod critical;
pub mod isr;
pub mod text;
pub mod task;
pub mod scheduler;
pub mod timers;
pub mod mutex;
pub mod semaphore;
pub mod queue;
pub mod delays;
pub mod utils;
