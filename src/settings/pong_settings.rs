//! Task groups as configured: each with an interval, a timeout and its tasks.
//! Durations are held in milliseconds.
use vstd::prelude::*;

verus! {

/// All configured task groups.
#[derive(Debug, Clone)]
pub struct PongSettings {
    pub task_groups: Vec<TaskGroupSettings>,
}

/// Tasks that share one interval and one timeout.
#[derive(Debug, Clone)]
pub struct TaskGroupSettings {
    /// Pause after each pass over the tasks, in milliseconds.
    pub interval: Option<u64>,
    /// Bound of every probe of the group, in milliseconds.
    pub timeout: Option<u64>,
    /// The tasks, in the order in which each pass runs them.
    pub tasks: Vec<TaskSettings>,
}

/// Interval used when the configuration gives none: 3 seconds.
pub fn interval_default() -> (r: Option<u64>)
    ensures
        r == Some(3000u64),
{
    Some(3000)
}

/// Timeout used when the configuration gives none: 5 seconds.
pub fn timeout_default() -> (r: Option<u64>)
    ensures
        r == Some(5000u64),
{
    Some(5000)
}

/// Protocol of a task; part of the key of its status.
#[derive(Debug, Clone, Copy, PartialEq, Eq, Structural)]
pub enum TaskType {
    ICMP,
    TCP,
    HTTP,
}

impl TaskType {
    /// Display name of the task type.
    pub open spec fn name_spec(self) -> Seq<char> {
        match self {
            TaskType::ICMP => "ICMP"@,
            TaskType::TCP => "TCP"@,
            TaskType::HTTP => "HTTP"@,
        }
    }

    /// Display name of the task type: `ICMP`, `TCP` or `HTTP`.
    pub fn name(&self) -> (r: &'static str)
        ensures
            r@ == self.name_spec(),
    {
        match self {
            TaskType::ICMP => "ICMP",
            TaskType::TCP => "TCP",
            TaskType::HTTP => "HTTP",
        }
    }
}

/// One task: what to probe and how.
#[derive(Debug, Clone)]
pub struct TaskSettings {
    pub task_type: TaskType,
    /// `host` for ICMP, `host:port` for TCP, `method:url` for HTTP.
    pub target: String,
}

/// Why a configuration cannot be run.
#[derive(Debug, Clone, Copy, PartialEq, Eq, Structural)]
pub enum SettingsError {
    /// No task group is configured.
    NoTaskGroups,
    /// The task group at this position has no task.
    EmptyTaskGroup(usize),
}

impl PongSettings {
    /// Accepts a configuration that has at least one task group and no empty
    /// group; otherwise reports the first fault found.
    pub fn check(&self) -> (r: Result<(), SettingsError>)
        ensures
            r is Ok <==> self.task_groups@.len() > 0 && forall|i: int|
                0 <= i < self.task_groups@.len() ==> #[trigger] self.task_groups@[i].tasks@.len() > 0,
            r == Err::<(), SettingsError>(SettingsError::NoTaskGroups) <==> self.task_groups@.len() == 0,
            forall|g: usize|
                r == Err::<(), SettingsError>(SettingsError::EmptyTaskGroup(g)) <==> (
                self.task_groups@.len() > 0 && g < self.task_groups@.len()
                    && self.task_groups@[g as int].tasks@.len() == 0 && forall|i: int|
                    0 <= i < g ==> #[trigger] self.task_groups@[i].tasks@.len() > 0),
    {
        if self.task_groups.len() == 0 {
            return Err(SettingsError::NoTaskGroups);
        }
        let mut i: usize = 0;
        while i < self.task_groups.len()
            invariant
                i <= self.task_groups@.len(),
                forall|j: int| 0 <= j < i ==> #[trigger] self.task_groups@[j].tasks@.len() > 0,
            decreases self.task_groups@.len() - i,
        {
            if self.task_groups[i].tasks.len() == 0 {
                return Err(SettingsError::EmptyTaskGroup(i));
            }
            i = i + 1;
        }
        Ok(())
    }
}

} // verus!
