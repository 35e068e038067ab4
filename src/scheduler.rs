//! The probing cycle of each task group, and the status reported for each probe run.
use crate::ping_error::PingError;
use crate::settings::pong_settings::TaskSettings;
use crate::targets::{TargetStatus, FAILURE_ELAPSED};
use std::sync::mpsc::Sender;
use vstd::prelude::*;

verus! {

/// The sending half of a standard channel, carried through unchanged.
#[verifier::external_type_specification]
#[verifier::external_body]
#[verifier::reject_recursive_types(T)]
pub struct ExSender<T>(std::sync::mpsc::Sender<T>);

/// What a group's cycle does next.
#[derive(Debug, Clone, Copy, PartialEq, Eq, Structural)]
pub enum CycleAction {
    /// Run the probe of the task at this position of the group.
    Probe(usize),
    /// Sleep this many milliseconds before the next pass.
    Sleep(u64),
}

/// The repeating cycle of one task group: every task once, in declared order,
/// then a sleep of the group's interval.
#[derive(Debug, Clone, Copy)]
pub struct GroupCycle {
    /// Sleep after each pass, in milliseconds.
    pub interval: u64,
    /// Number of tasks in the group.
    pub n_tasks: usize,
    /// Position of the next task to run; `n_tasks` once the pass is done.
    pub next: usize,
}

/// One step of a cycle: its next state and the action it takes.
pub open spec fn cycle_step(c: GroupCycle) -> (GroupCycle, CycleAction) {
    if c.next < c.n_tasks {
        (GroupCycle { next: (c.next + 1) as usize, ..c }, CycleAction::Probe(c.next))
    } else {
        (GroupCycle { next: 0, ..c }, CycleAction::Sleep(c.interval))
    }
}

/// The state of a cycle after `k` steps.
pub open spec fn cycle_run(c: GroupCycle, k: nat) -> GroupCycle
    decreases k,
{
    if k == 0 {
        c
    } else {
        cycle_step(cycle_run(c, (k - 1) as nat)).0
    }
}

/// Action number `k` (counting from 0) of a fresh cycle over `n_tasks` tasks.
pub open spec fn action_at(interval: u64, n_tasks: nat, k: nat) -> CycleAction {
    let p = k % (n_tasks + 1);
    if p < n_tasks {
        CycleAction::Probe(p as usize)
    } else {
        CycleAction::Sleep(interval)
    }
}

impl GroupCycle {
    pub open spec fn wf(&self) -> bool {
        self.next <= self.n_tasks
    }

    /// A cycle about to start its first pass.
    pub fn new(interval: u64, n_tasks: usize) -> (r: GroupCycle)
        ensures
            r.wf(),
            r == (GroupCycle { interval, n_tasks, next: 0 }),
    {
        GroupCycle { interval, n_tasks, next: 0 }
    }

    /// Takes the next step of the cycle: the next task's probe while the pass
    /// lasts, else the sleep that ends the pass.
    pub fn next_action(&mut self) -> (r: CycleAction)
        requires
            old(self).wf(),
        ensures
            final(self).wf(),
            (*final(self), r) == cycle_step(*old(self)),
    {
        if self.next < self.n_tasks {
            let i = self.next;
            self.next = self.next + 1;
            CycleAction::Probe(i)
        } else {
            self.next = 0;
            CycleAction::Sleep(self.interval)
        }
    }
}

/// A fresh cycle runs every task once in declared order, then sleeps for its
/// interval, and repeats: its `k`-th action is `action_at(interval, n_tasks, k)`,
/// so each pass holds exactly one sleep.
pub proof fn lemma_cycle_order(interval: u64, n_tasks: usize, k: nat)
    ensures
        cycle_run(GroupCycle { interval, n_tasks, next: 0 }, k).next == k % (n_tasks as nat + 1),
        cycle_run(GroupCycle { interval, n_tasks, next: 0 }, k).interval == interval,
        cycle_run(GroupCycle { interval, n_tasks, next: 0 }, k).n_tasks == n_tasks,
        cycle_step(cycle_run(GroupCycle { interval, n_tasks, next: 0 }, k)).1 == action_at(
            interval,
            n_tasks as nat,
            k,
        ),
    decreases k,
{
    let m = n_tasks as nat + 1;
    if k > 0 {
        lemma_cycle_order(interval, n_tasks, (k - 1) as nat);
        let p = ((k - 1) as nat) % m;
        vstd::arithmetic::div_mod::lemma_fundamental_div_mod((k - 1) as int, m as int);
        let q = ((k - 1) as nat / m) as int;
        assert(k == q * m + (p + 1)) by (nonlinear_arith)
            requires
                (k - 1) as int == m * q + p,
        ;
        assert(k == (q + 1) * m + (p + 1 - m)) by (nonlinear_arith)
            requires
                k == q * m + (p + 1),
        ;
        if p + 1 < m {
            vstd::arithmetic::div_mod::lemma_fundamental_div_mod_converse(
                k as int,
                m as int,
                ((k - 1) as nat / m) as int,
                (p + 1) as int,
            );
        } else {
            vstd::arithmetic::div_mod::lemma_fundamental_div_mod_converse(
                k as int,
                m as int,
                ((k - 1) as nat / m + 1) as int,
                0,
            );
        }
    }
}

/// The status reported for one run of `task`'s probe: the measured latency in
/// milliseconds on success (capped at `i64::MAX`), `FAILURE_ELAPSED` on failure.
pub fn task_status(task: &TaskSettings, outcome: &Result<(), PingError>, elapsed_ms: u64) -> (r:
    TargetStatus)
    ensures
        r.task_type == task.task_type,
        r.target@ == task.target@,
        r.elapsed == (match outcome {
            Ok(_) => if elapsed_ms <= i64::MAX {
                elapsed_ms as i64
            } else {
                i64::MAX
            },
            Err(_) => FAILURE_ELAPSED,
        }),
{
    let elapsed: i64 = match outcome {
        Ok(_) => if elapsed_ms <= i64::MAX as u64 {
            elapsed_ms as i64
        } else {
            i64::MAX
        },
        Err(_) => FAILURE_ELAPSED,
    };
    TargetStatus { task_type: task.task_type, target: task.target.clone(), elapsed }
}

/// Runs the task groups and sends each probe's status on the channel it was given.
pub struct Scheduler {
    target_status_tx: Sender<TargetStatus>,
}

impl Scheduler {
    /// The channel on which statuses are sent.
    pub closed spec fn sender(&self) -> Sender<TargetStatus> {
        self.target_status_tx
    }

    /// A scheduler that sends statuses on `target_status_tx`.
    pub fn new(target_status_tx: Sender<TargetStatus>) -> (r: Scheduler)
        ensures
            r.sender() == target_status_tx,
    {
        Scheduler { target_status_tx }
    }

    /// The channel on which statuses are sent.
    pub fn target_status_tx(&self) -> (r: &Sender<TargetStatus>)
        ensures
            *r == self.sender(),
    {
        &self.target_status_tx
    }
}

} // verus!
