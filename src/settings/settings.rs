//! Task groups of the two-protocol configuration format (ICMP and TCP only).
//! Durations are held in milliseconds.
use vstd::prelude::*;

verus! {

/// Protocol of a task in this format.
#[derive(Debug, Clone, Copy, PartialEq, Eq, Structural)]
pub enum TaskType {
    ICMP,
    TCP,
}

/// Tasks that share one interval and one timeout.
#[derive(Debug, Clone)]
pub struct TaskGroupSettings {
    /// Pause after each pass over the tasks, in milliseconds.
    pub interval: Option<u64>,
    /// Bound of every probe of the group, in milliseconds.
    pub timeout: Option<u64>,
    pub tasks: Vec<TaskSettings>,
}

/// Interval used when the configuration gives none: 3 seconds.
pub fn interval_default() -> (r: Option<u64>)
    ensures
        r == Some(3000u64),
{
    Some(3000)
}

/// Timeout used when the configuration gives none: 5 seconds.
pub fn timeout_default() -> (r: Option<u64>)
    ensures
        r == Some(5000u64),
{
    Some(5000)
}

/// One task: what to probe and how.
#[derive(Debug, Clone)]
pub struct TaskSettings {
    pub task_type: TaskType,
    pub target: String,
}

} // verus!
