//! Static-priority task scheduling with bounded activation.
//!
//! Each software task has a fixed priority and a single pending-instance
//! slot: at most one queued activation at a time. Dispatch always picks the
//! highest-priority runnable task that is strictly above the current
//! execution priority (preemption); within one priority level, tasks run
//! first-triggered-first. A task instance moves
//! `Idle -> Pending -> Running -> (Suspended <-> Running)* -> Idle`.

use crate::lock::{spec_ceiling, LockManager, ResourceId};
use crate::{CoreError, TaskId};
use vstd::prelude::*;

verus! {

/// Lifecycle state of a task's single instance slot.
#[derive(Clone, Copy, PartialEq, Eq, Structural, Debug)]
pub enum TaskState {
    /// No instance queued or running: the slot is free.
    Idle,
    /// An instance is queued and its priority's dispatch is armed.
    Pending,
    /// The instance currently owns the processor.
    Running,
    /// The instance waits at an explicit yield point for a peripheral
    /// operation; strictly higher priorities may run meanwhile.
    Suspended,
}

/// Runtime bookkeeping of one task: fixed identity and priority, plus the
/// mutable state of its single instance slot.
#[derive(Clone, Copy, PartialEq, Eq, Structural, Debug)]
pub struct TaskControl {
    /// Which task this slot belongs to.
    pub id: TaskId,
    /// The task's static priority, from the build-time table.
    pub prio: u8,
    /// The state of the task's single instance.
    pub state: TaskState,
    /// When the instance was queued: dispatch breaks priority ties by the
    /// earlier trigger.
    pub stamp: u64,
}

/// The process-wide scheduler state: the fixed task table and the trigger
/// clock.
pub struct Scheduler {
    /// One entry per task, fixed at startup; only `state` and `stamp`
    /// mutate.
    pub tasks: Vec<TaskControl>,
    /// The next trigger stamp to hand out; grows with every activation.
    pub next_stamp: u64,
}

/// The position of each task in the table.
pub open spec fn spec_slot(t: TaskId) -> int {
    match t {
        TaskId::ButtonA => 0,
        TaskId::ButtonB => 1,
    }
}

impl Scheduler {
    /// The table holds exactly the two tasks, in slot order, each at its
    /// static priority, and no stamp is ahead of the trigger clock.
    pub open spec fn wf(self) -> bool {
        &&& self.tasks@.len() == 2
        &&& forall|t: TaskId| (#[trigger] self.task(t)).id == t
        &&& forall|t: TaskId| (#[trigger] self.task(t)).prio == t.spec_priority()
        &&& forall|t: TaskId| (#[trigger] self.task(t)).stamp < self.next_stamp
    }

    /// The table entry of task `t`.
    pub open spec fn task(self, t: TaskId) -> TaskControl {
        self.tasks@[spec_slot(t)]
    }

    /// Whether `t` could be given the processor when the current execution
    /// priority is `cur`: it has a pending instance and would preempt.
    pub open spec fn runnable_above(self, t: TaskId, cur: u8) -> bool {
        self.task(t).state is Pending && self.task(t).prio > cur
    }

    /// Dispatch order: `t` goes before `u` if its priority is higher, or
    /// equal with the earlier trigger.
    pub open spec fn beats(self, t: TaskId, u: TaskId) -> bool {
        ||| self.task(t).prio > self.task(u).prio
        ||| (self.task(t).prio == self.task(u).prio && self.task(t).stamp <= self.task(u).stamp)
    }

    /// The scheduler before any task has run: every slot free.
    pub fn new() -> (s: Scheduler)
        ensures
            s.wf(),
            forall|t: TaskId| (#[trigger] s.task(t)).state is Idle,
            s.next_stamp == 1,
    {
        let mut tasks: Vec<TaskControl> = Vec::new();
        tasks.push(
            TaskControl {
                id: TaskId::ButtonA,
                prio: TaskId::ButtonA.priority(),
                state: TaskState::Idle,
                stamp: 0,
            },
        );
        tasks.push(
            TaskControl {
                id: TaskId::ButtonB,
                prio: TaskId::ButtonB.priority(),
                state: TaskState::Idle,
                stamp: 0,
            },
        );
        let s = Scheduler { tasks, next_stamp: 1 };
        proof {
            assert forall|t: TaskId| (#[trigger] s.task(t)).id == t by {
                match t {
                    TaskId::ButtonA => {},
                    TaskId::ButtonB => {},
                }
            }
        }
        s
    }

    /// Requests one activation of `t`. Succeeds exactly when the task's
    /// single pending-instance slot is free, stamping it with the trigger
    /// order; an occupied slot fails with `QueueFull` and changes nothing.
    pub fn spawn(&mut self, t: TaskId) -> (r: Result<(), CoreError>)
        requires
            old(self).wf(),
            old(self).next_stamp < u64::MAX,
        ensures
            final(self).wf(),
            r is Ok <==> old(self).task(t).state is Idle,
            old(self).task(t).state is Idle ==> r == Result::<(), CoreError>::Ok(()),
            r matches Err(e) ==> e == CoreError::QueueFull && *final(self) == *old(self),
            r is Ok ==> final(self).task(t) == (TaskControl {
                state: TaskState::Pending,
                stamp: old(self).next_stamp,
                ..old(self).task(t)
            }),
            r is Ok ==> final(self).next_stamp == old(self).next_stamp + 1,
            forall|u: TaskId| u != t ==> final(self).task(u) == old(self).task(u),
    {
        let i = slot(t);
        let entry = self.tasks[i];
        if entry.state == TaskState::Idle {
            let updated = TaskControl {
                id: entry.id,
                prio: entry.prio,
                state: TaskState::Pending,
                stamp: self.next_stamp,
            };
            self.tasks.set(i, updated);
            self.next_stamp = self.next_stamp + 1;
            proof {
                lemma_distinct_slots(t);
                assert forall|u: TaskId| u != t implies #[trigger] self.task(u) == old(
                    self,
                ).task(u) by {
                    assert(spec_slot(u) != spec_slot(t));
                }
                assert(self.task(t) == (TaskControl {
                    state: TaskState::Pending,
                    stamp: old(self).next_stamp,
                    ..old(self).task(t)
                }));
                assert forall|u: TaskId|
                    ((#[trigger] self.task(u)).id == u && self.task(u).prio == u.spec_priority()
                        && self.task(u).stamp < self.next_stamp) by {
                    if u != t {
                        assert(self.task(u) == old(self).task(u));
                        assert(old(self).task(u).id == u);
                    }
                }
            }
            Ok(())
        } else {
            Err(CoreError::QueueFull)
        }
    }

    /// Picks the task to run when the current execution priority is `cur`:
    /// the highest-priority pending task that would preempt, ties broken by
    /// the earlier trigger; none if nothing runnable is above `cur`.
    pub fn dispatch(&self, cur: u8) -> (r: Option<TaskId>)
        requires
            self.wf(),
        ensures
            r is None <==> (forall|t: TaskId| !self.runnable_above(t, cur)),
            r matches Some(t) ==> self.runnable_above(t, cur) && forall|u: TaskId|
                self.runnable_above(u, cur) ==> self.beats(t, u),
    {
        let a = self.tasks[0];
        let b = self.tasks[1];
        let a_ok = a.state == TaskState::Pending && a.prio > cur;
        let b_ok = b.state == TaskState::Pending && b.prio > cur;
        proof {
            assert forall|t: TaskId| self.runnable_above(t, cur) implies (t == TaskId::ButtonA
                && a_ok) || (t == TaskId::ButtonB && b_ok) by {
                lemma_task_cases(t);
            }
        }
        proof {
            if a_ok {
                assert(self.runnable_above(TaskId::ButtonA, cur));
            }
            if b_ok {
                assert(self.runnable_above(TaskId::ButtonB, cur));
            }
        }
        if a_ok && b_ok {
            if a.prio > b.prio || (a.prio == b.prio && a.stamp <= b.stamp) {
                Some(TaskId::ButtonA)
            } else {
                Some(TaskId::ButtonB)
            }
        } else if a_ok {
            Some(TaskId::ButtonA)
        } else if b_ok {
            Some(TaskId::ButtonB)
        } else {
            None
        }
    }

    /// Gives the processor to a pending instance of `t`.
    pub fn start(&mut self, t: TaskId)
        requires
            old(self).wf(),
            old(self).task(t).state is Pending,
        ensures
            final(self).wf(),
            final(self).task(t) == (TaskControl { state: TaskState::Running, ..old(self).task(t) }),
            forall|u: TaskId| u != t ==> final(self).task(u) == old(self).task(u),
            final(self).next_stamp == old(self).next_stamp,
    {
        self.set_state(t, TaskState::Running);
    }

    /// Parks a running instance of `t` at an explicit yield point, awaiting
    /// a peripheral operation.
    pub fn suspend(&mut self, t: TaskId)
        requires
            old(self).wf(),
            old(self).task(t).state is Running,
        ensures
            final(self).wf(),
            final(self).task(t) == (TaskControl {
                state: TaskState::Suspended,
                ..old(self).task(t)
            }),
            forall|u: TaskId| u != t ==> final(self).task(u) == old(self).task(u),
            final(self).next_stamp == old(self).next_stamp,
    {
        self.set_state(t, TaskState::Suspended);
    }

    /// Returns the processor to a suspended instance of `t` once its
    /// awaited operation is done.
    pub fn resume(&mut self, t: TaskId)
        requires
            old(self).wf(),
            old(self).task(t).state is Suspended,
        ensures
            final(self).wf(),
            final(self).task(t) == (TaskControl { state: TaskState::Running, ..old(self).task(t) }),
            forall|u: TaskId| u != t ==> final(self).task(u) == old(self).task(u),
            final(self).next_stamp == old(self).next_stamp,
    {
        self.set_state(t, TaskState::Running);
    }

    /// Retires a running instance of `t`: its entry procedure returned, so
    /// the slot is free again for the next activation.
    pub fn complete(&mut self, t: TaskId)
        requires
            old(self).wf(),
            old(self).task(t).state is Running,
        ensures
            final(self).wf(),
            final(self).task(t) == (TaskControl { state: TaskState::Idle, ..old(self).task(t) }),
            forall|u: TaskId| u != t ==> final(self).task(u) == old(self).task(u),
            final(self).next_stamp == old(self).next_stamp,
    {
        self.set_state(t, TaskState::Idle);
    }

    /// Moves the single instance of `t` to `to`, leaving everything else
    /// alone.
    fn set_state(&mut self, t: TaskId, to: TaskState)
        requires
            old(self).wf(),
        ensures
            final(self).wf(),
            final(self).task(t) == (TaskControl { state: to, ..old(self).task(t) }),
            forall|u: TaskId| u != t ==> final(self).task(u) == old(self).task(u),
            final(self).next_stamp == old(self).next_stamp,
    {
        let i = slot(t);
        let entry = self.tasks[i];
        let updated = TaskControl { id: entry.id, prio: entry.prio, state: to, stamp: entry.stamp };
        self.tasks.set(i, updated);
        proof {
            lemma_distinct_slots(t);
            assert forall|u: TaskId| u != t implies #[trigger] self.task(u) == old(self).task(
                u,
            ) by {
                assert(spec_slot(u) != spec_slot(t));
            }
            assert(self.task(t) == (TaskControl { state: to, ..old(self).task(t) }));
            assert forall|u: TaskId|
                ((#[trigger] self.task(u)).id == u && self.task(u).prio == u.spec_priority()
                    && self.task(u).stamp < self.next_stamp) by {
                if u != t {
                    assert(self.task(u) == old(self).task(u));
                    assert(old(self).task(u).id == u);
                }
            }
        }
    }
}

/// Executable form of the slot table.
fn slot(t: TaskId) -> (i: usize)
    ensures
        i == spec_slot(t),
        i < 2,
{
    match t {
        TaskId::ButtonA => 0,
        TaskId::ButtonB => 1,
    }
}

/// Distinct tasks sit in distinct table slots.
proof fn lemma_distinct_slots(t: TaskId)
    ensures
        forall|u: TaskId| u != t ==> spec_slot(u) != spec_slot(t),
{
    assert forall|u: TaskId| u != t implies spec_slot(u) != spec_slot(t) by {
        lemma_task_cases(u);
        lemma_task_cases(t);
    }
}

/// Every task is one of the two in the table.
proof fn lemma_task_cases(t: TaskId)
    ensures
        t == TaskId::ButtonA || t == TaskId::ButtonB,
{
    match t {
        TaskId::ButtonA => {},
        TaskId::ButtonB => {},
    }
}

/// Priority-ceiling invariant: while any context holds a lock on `r`, no
/// task of priority at or below the ceiling of `r` can be dispatched — only
/// tasks strictly above the ceiling preempt the critical section.
pub proof fn lemma_priority_ceiling_exclusion(s: Scheduler, m: LockManager, r: ResourceId)
    requires
        s.wf(),
        m.wf(),
        m.holds(r),
    ensures
        forall|t: TaskId|
            s.runnable_above(t, m.effective) ==> s.task(t).prio > spec_ceiling(r),
{
    crate::lock::lemma_elevated_at_least(m.base, m.held@, r);
}

} // verus!
