//! The process-wide state: the scheduler table, the diagnostic counters,
//! the idle-loop bookkeeping, and the write-once configuration key.
//!
//! The state is initialized once before any task runs and lives until
//! power-off; only scheduler dispatch, the interrupt handler, the tasks and
//! the idle loop mutate it.

use crate::sched::{Scheduler, TaskState};
use crate::text::{
    compose_string, concat_bytes, lemma_concat_pair, msg_as_str, msg_from_str, text_bytes,
};
use crate::{CoreError, TaskId};
use vstd::prelude::*;
use vstd::string::StringSliceAdditionalSpecFns;

verus! {

/// Everything the core mutates at run time, plus the write-once key.
pub struct System {
    /// The task table and trigger clock.
    pub sched: Scheduler,
    /// Diagnostic counter of interrupt-handler invocations.
    pub handler_count: u32,
    /// Invocation count of the button-A task.
    pub task_a_count: u32,
    /// Invocation count of the button-B task.
    pub task_b_count: u32,
    /// Position within the eight-step idle traversal.
    pub idle_step: u8,
    /// Completed idle cycles.
    pub idle_count: u32,
    /// Shared read-only configuration value: set once here, then read
    /// without locking — valid only because it is never written again.
    pub key: heapless::String<32>,
}

impl System {
    /// The scheduler table is consistent and the idle position is one of
    /// the eight steps.
    pub open spec fn wf(self) -> bool {
        &&& self.sched.wf()
        &&& self.idle_step < 8
    }

    /// Builds the startup state: every task slot free, all counters zero,
    /// the key written its one time. Board and peripheral bring-up belong
    /// to the embedding; a failure there is fatal before scheduling starts.
    pub fn init(key: &str) -> (s: System)
        requires
            key.spec_bytes().len() <= 32,
        ensures
            s.wf(),
            forall|t: TaskId| (#[trigger] s.sched.task(t)).state is Idle,
            s.handler_count == 0,
            s.task_a_count == 0,
            s.task_b_count == 0,
            s.idle_step == 0,
            s.idle_count == 0,
            text_bytes(s.key) == key.spec_bytes(),
    {
        System {
            sched: Scheduler::new(),
            handler_count: 0,
            task_a_count: 0,
            task_b_count: 0,
            idle_step: 0,
            idle_count: 0,
            key: msg_from_str(key),
        }
    }

    /// The greeting the idle loop emits once on entry: the write-once key,
    /// read without a lock, behind its fixed prefix. Fails with
    /// `BufferOverflow` exactly when prefix and key together exceed the
    /// message capacity.
    pub fn idle_greeting(&self) -> (r: Result<heapless::String<32>, CoreError>)
        ensures
            r is Ok <==> "The key is: ".spec_bytes().len() + text_bytes(self.key).len() <= 32,
            r matches Ok(m) ==> text_bytes(m) == "The key is: ".spec_bytes() + text_bytes(
                self.key,
            ),
            r matches Err(e) ==> e == CoreError::BufferOverflow,
    {
        let mut parts: Vec<&str> = Vec::new();
        parts.push("The key is: ");
        parts.push(msg_as_str(&self.key));
        proof {
            lemma_concat_pair(parts@);
        }
        compose_string(parts.as_slice())
    }
}

} // verus!
