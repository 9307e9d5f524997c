//! The interrupt dispatcher: one shared hardware interrupt, decoded into
//! per-channel software task activations.
//!
//! The handler runs at the highest priority. For each channel whose event
//! flag it observes set, it has the flag cleared exactly once and requests
//! one activation of the channel's task. A task whose single
//! pending-instance slot is already occupied yields `QueueFull`: the event
//! is dropped and reported, never merged into a running instance. The
//! handler itself never blocks and touches nothing but the edge-detect
//! unit and the task slots, so its execution time is bounded.

use crate::lock::{LockManager, ResourceId};
use crate::sched::TaskState;
use crate::system::System;
use crate::text::{
    dec_bytes, lemma_dec_bytes_len_u32, log_count, msg_from_str, text_bytes,
};
use crate::{CoreError, TaskId, PRIO_HANDLER};
use vstd::prelude::*;
use vstd::string::{is_ascii, is_ascii_spec_bytes, StringSliceAdditionalSpecFns};

verus! {

/// What one handler invocation asks of the hardware and the diagnostic
/// sink. The embedding carries it out: clears the flags, emits the lines.
pub struct HandlerReport {
    /// Whether the channel-0 event flag is to be cleared (exactly once).
    pub clear_chan0: bool,
    /// Whether the channel-1 event flag is to be cleared (exactly once).
    pub clear_chan1: bool,
    /// The outcome of the channel-0 activation request, if one was made.
    pub spawn_chan0: Option<Result<(), CoreError>>,
    /// The outcome of the channel-1 activation request, if one was made.
    pub spawn_chan1: Option<Result<(), CoreError>>,
    /// The diagnostic lines, in emission order.
    pub messages: Vec<heapless::String<32>>,
}

/// The diagnostic lines one handler invocation emits, given the state it
/// started from: the invocation-count line, then per triggered channel the
/// button line and, if the activation failed, the failure line.
pub open spec fn spec_handler_messages(pre: System, chan0: bool, chan1: bool) -> Seq<Seq<u8>> {
    let count_line = "button pressed count: ".spec_bytes() + dec_bytes(
        (pre.handler_count + 1) as nat,
    );
    let after0 = if chan0 {
        seq![count_line, "Button A pressed".spec_bytes()] + (
        if pre.sched.task(TaskId::ButtonA).state is Idle {
            Seq::<Seq<u8>>::empty()
        } else {
            seq!["failed to spawn task!".spec_bytes()]
        })
    } else {
        seq![count_line]
    };
    if chan1 {
        after0 + seq!["Button B pressed".spec_bytes()] + (
        if pre.sched.task(TaskId::ButtonB).state is Idle {
            Seq::<Seq<u8>>::empty()
        } else {
            seq!["failed to spawn task!".spec_bytes()]
        })
    } else {
        after0
    }
}

impl System {
    /// The hardware button interrupt handler. Counts its invocation, then,
    /// under the edge-detect unit's lock (ceiling: the handler's own
    /// priority), decodes which channels fired and requests one activation
    /// each; an occupied slot drops the event with `QueueFull`. The flags
    /// it observed set are cleared exactly once; no other event is
    /// touched.
    pub fn button_pressed(&mut self, chan0_triggered: bool, chan1_triggered: bool) -> (rep:
        HandlerReport)
        requires
            old(self).wf(),
            old(self).handler_count < u32::MAX,
            old(self).sched.next_stamp + 2 <= u64::MAX,
        ensures
            final(self).wf(),
            final(self).handler_count == old(self).handler_count + 1,
            rep.clear_chan0 == chan0_triggered,
            rep.clear_chan1 == chan1_triggered,
            // Channel 0: an activation is requested exactly when the flag
            // was set; it succeeds exactly when the slot was free.
            rep.spawn_chan0 is Some <==> chan0_triggered,
            chan0_triggered ==> (rep.spawn_chan0 == Some(Result::<(), CoreError>::Ok(()))
                <==> old(self).sched.task(TaskId::ButtonA).state is Idle),
            chan0_triggered && !(old(self).sched.task(TaskId::ButtonA).state is Idle)
                ==> rep.spawn_chan0 == Some(
                Result::<(), CoreError>::Err(CoreError::QueueFull),
            ),
            chan0_triggered ==> final(self).sched.task(TaskId::ButtonA).state
                == spec_slot_after(old(self).sched.task(TaskId::ButtonA).state, SlotEvent::Edge),
            !chan0_triggered ==> rep.spawn_chan0 is None && final(self).sched.task(
                TaskId::ButtonA,
            ) == old(self).sched.task(TaskId::ButtonA),
            // Channel 1, judged on the same pre-state: channel 0's
            // activation does not touch channel 1's slot.
            rep.spawn_chan1 is Some <==> chan1_triggered,
            chan1_triggered ==> (rep.spawn_chan1 == Some(Result::<(), CoreError>::Ok(()))
                <==> old(self).sched.task(TaskId::ButtonB).state is Idle),
            chan1_triggered && !(old(self).sched.task(TaskId::ButtonB).state is Idle)
                ==> rep.spawn_chan1 == Some(
                Result::<(), CoreError>::Err(CoreError::QueueFull),
            ),
            chan1_triggered ==> final(self).sched.task(TaskId::ButtonB).state
                == spec_slot_after(old(self).sched.task(TaskId::ButtonB).state, SlotEvent::Edge),
            !chan1_triggered ==> rep.spawn_chan1 is None && final(self).sched.task(
                TaskId::ButtonB,
            ) == old(self).sched.task(TaskId::ButtonB),
            // First-triggered-first-run: when both channels activate, the
            // channel-0 task carries the earlier trigger stamp.
            chan0_triggered && chan1_triggered && old(self).sched.task(TaskId::ButtonA).state
                is Idle && old(self).sched.task(TaskId::ButtonB).state is Idle
                ==> final(self).sched.task(TaskId::ButtonA).stamp
                < final(self).sched.task(TaskId::ButtonB).stamp,
            // The diagnostic lines, exactly and in order.
            rep.messages@.map_values(|m: heapless::String<32>| text_bytes(m))
                == spec_handler_messages(*old(self), chan0_triggered, chan1_triggered),
            // Nothing else of the system is touched.
            final(self).task_a_count == old(self).task_a_count,
            final(self).task_b_count == old(self).task_b_count,
            final(self).idle_step == old(self).idle_step,
            final(self).idle_count == old(self).idle_count,
            final(self).key == old(self).key,
    {
        self.handler_count = self.handler_count + 1;
        proof {
            reveal_strlit("button pressed count: ");
            assert(is_ascii("button pressed count: "));
            is_ascii_spec_bytes("button pressed count: ");
            assert("button pressed count: ".spec_bytes().len() == 22);
            lemma_dec_bytes_len_u32(self.handler_count as nat);
        }
        let mut messages: Vec<heapless::String<32>> = Vec::new();
        messages.push(log_count("button pressed count: ", self.handler_count));

        // Critical section over the edge-detect unit: the handler is its
        // only accessor, so the ceiling is the handler's own priority.
        let mut locks = LockManager::new(PRIO_HANDLER);
        locks.acquire(ResourceId::Gpiote);

        let mut spawn_chan0: Option<Result<(), CoreError>> = None;
        if chan0_triggered {
            proof {
                reveal_strlit("Button A pressed");
                assert(is_ascii("Button A pressed"));
                is_ascii_spec_bytes("Button A pressed");
                assert("Button A pressed".spec_bytes().len() == 16);
            }
            messages.push(msg_from_str("Button A pressed"));
            let r = self.sched.spawn(TaskId::ButtonA);
            if r.is_err() {
                proof {
                    reveal_strlit("failed to spawn task!");
                    assert(is_ascii("failed to spawn task!"));
                    is_ascii_spec_bytes("failed to spawn task!");
                    assert("failed to spawn task!".spec_bytes().len() == 21);
                }
                messages.push(msg_from_str("failed to spawn task!"));
            }
            spawn_chan0 = Some(r);
        }

        let mut spawn_chan1: Option<Result<(), CoreError>> = None;
        if chan1_triggered {
            proof {
                reveal_strlit("Button B pressed");
                assert(is_ascii("Button B pressed"));
                is_ascii_spec_bytes("Button B pressed");
                assert("Button B pressed".spec_bytes().len() == 16);
            }
            messages.push(msg_from_str("Button B pressed"));
            let r = self.sched.spawn(TaskId::ButtonB);
            if r.is_err() {
                proof {
                    reveal_strlit("failed to spawn task!");
                    assert(is_ascii("failed to spawn task!"));
                    is_ascii_spec_bytes("failed to spawn task!");
                    assert("failed to spawn task!".spec_bytes().len() == 21);
                }
                messages.push(msg_from_str("failed to spawn task!"));
            }
            spawn_chan1 = Some(r);
        }

        let released = locks.release();
        proof {
            assert(released == ResourceId::Gpiote);
            assert(locks.effective == PRIO_HANDLER);
            assert(messages@.map_values(|m: heapless::String<32>| text_bytes(m))
                =~= spec_handler_messages(*old(self), chan0_triggered, chan1_triggered));
        }
        HandlerReport {
            clear_chan0: chan0_triggered,
            clear_chan1: chan1_triggered,
            spawn_chan0,
            spawn_chan1,
            messages,
        }
    }
}

/// The alternate path that would handle a button edge synchronously inside
/// the handler itself, bypassing task activation: if the channel's flag is
/// set, it is to be cleared and a press line emitted. The spawn-based
/// dispatch above is the canonical path; this one is kept but unused by
/// it.
pub fn button_pressed_action(triggered: bool, button_name: &str) -> (r: Option<
    heapless::String<32>,
>)
    requires
        button_name.spec_bytes().len() + 24 <= 32,
    ensures
        r is Some <==> triggered,
        r matches Some(m) ==> text_bytes(m) == "Button ".spec_bytes() + button_name.spec_bytes()
            + " has been pressed".spec_bytes(),
{
    if triggered {
        proof {
            reveal_strlit("Button ");
            assert(is_ascii("Button "));
            is_ascii_spec_bytes("Button ");
            assert("Button ".spec_bytes().len() == 7);
            reveal_strlit(" has been pressed");
            assert(is_ascii(" has been pressed"));
            is_ascii_spec_bytes(" has been pressed");
            assert(" has been pressed".spec_bytes().len() == 17);
        }
        let mut parts: Vec<&str> = Vec::new();
        parts.push("Button ");
        parts.push(button_name);
        parts.push(" has been pressed");
        proof {
            crate::text::lemma_concat_triple(parts@);
        }
        let composed = crate::text::compose_string(parts.as_slice());
        match composed {
            Ok(m) => Some(m),
            Err(_) => None,
        }
    } else {
        None
    }
}

/// An event in the life of one channel's task slot: a qualifying edge
/// observed by the handler, or the completion of the task instance.
#[derive(Clone, Copy, PartialEq, Eq, Structural, Debug)]
pub enum SlotEvent {
    /// The handler observed the channel's event flag set.
    Edge,
    /// The task instance ran to completion, freeing the slot.
    Complete,
}

/// The slot after one event: an edge takes a free slot and is otherwise
/// dropped; a completion frees the slot.
pub open spec fn spec_slot_after(s: TaskState, ev: SlotEvent) -> TaskState {
    match ev {
        SlotEvent::Edge => if s is Idle {
            TaskState::Pending
        } else {
            s
        },
        SlotEvent::Complete => TaskState::Idle,
    }
}

/// The slot after a whole run of events.
pub open spec fn spec_run_slot(s0: TaskState, evs: Seq<SlotEvent>) -> TaskState
    decreases evs.len(),
{
    if evs.len() == 0 {
        s0
    } else {
        spec_slot_after(spec_run_slot(s0, evs.drop_last()), evs.last())
    }
}

/// How many events of the run activated the task: edges that found the
/// slot free.
pub open spec fn spec_run_activations(s0: TaskState, evs: Seq<SlotEvent>) -> nat
    decreases evs.len(),
{
    if evs.len() == 0 {
        0
    } else {
        spec_run_activations(s0, evs.drop_last()) + (
        if evs.last() is Edge && spec_run_slot(s0, evs.drop_last()) is Idle {
            1nat
        } else {
            0nat
        })
    }
}

/// The number of edge events in a run.
pub open spec fn spec_count_edges(evs: Seq<SlotEvent>) -> nat
    decreases evs.len(),
{
    if evs.len() == 0 {
        0
    } else {
        spec_count_edges(evs.drop_last()) + (
        if evs.last() is Edge {
            1nat
        } else {
            0nat
        })
    }
}

/// For any run of edge events on a channel, each arriving only after the
/// prior instance has completed (the slot free again), exactly as many
/// activations occur as there were edges. An edge that instead finds the
/// slot occupied activates nothing and is reported as `QueueFull`: that is
/// the single-step contract of `button_pressed`.
pub proof fn lemma_spaced_edges_all_activate(s0: TaskState, evs: Seq<SlotEvent>)
    requires
        forall|i: int|
            0 <= i < evs.len() && evs[i] is Edge ==> spec_run_slot(s0, #[trigger] evs.take(i))
                is Idle,
    ensures
        spec_run_activations(s0, evs) == spec_count_edges(evs),
    decreases evs.len(),
{
    if evs.len() > 0 {
        let pre = evs.drop_last();
        assert forall|i: int| 0 <= i < pre.len() && pre[i] is Edge implies spec_run_slot(
            s0,
            #[trigger] pre.take(i),
        ) is Idle by {
            assert(pre.take(i) =~= evs.take(i));
        }
        lemma_spaced_edges_all_activate(s0, pre);
        if evs.last() is Edge {
            assert(evs.take(evs.len() - 1) =~= pre);
            assert(spec_run_slot(s0, pre) is Idle);
        }
    }
}

} // verus!
