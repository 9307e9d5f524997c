//! The idle loop: the lowest-priority activity, run whenever no task is
//! runnable, for as long as the device is powered.
//!
//! It traverses eight fixed positions on the matrix, one lit cell per
//! frame (the next frame clears it again), locking display and timer
//! together for each frame; after every full traversal it counts one idle
//! cycle. The eight positions are a fixed design fixture, not derived
//! geometry.

use crate::lock::{LockManager, ResourceId};
use crate::system::System;
use crate::tasks::{frame_matching, spec_lit, Frame};
use crate::text::{dec_bytes, lemma_dec_bytes_len_u32, log_count, text_bytes};
use crate::PRIO_IDLE;
use vstd::prelude::*;
use vstd::string::{is_ascii, is_ascii_spec_bytes, StringSliceAdditionalSpecFns};

verus! {

/// Duration, in milliseconds, of one idle-animation frame.
pub const IDLE_FRAME_MS: u32 = 250;

/// The eight positions of the idle traversal, in order: a ring around the
/// centre of the matrix.
pub open spec fn spec_idle_pos(step: int) -> (int, int) {
    if step == 0 {
        (1, 1)
    } else if step == 1 {
        (1, 2)
    } else if step == 2 {
        (1, 3)
    } else if step == 3 {
        (2, 3)
    } else if step == 4 {
        (3, 3)
    } else if step == 5 {
        (3, 2)
    } else if step == 6 {
        (3, 1)
    } else {
        (2, 1)
    }
}

/// The idle position and cycle count after one more frame.
pub open spec fn spec_idle_next(step: int, count: int) -> (int, int) {
    if step == 7 {
        (0, count + 1)
    } else {
        (step + 1, count)
    }
}

/// Executable form of the position table.
fn idle_pos(step: u8) -> (p: (u8, u8))
    requires
        step < 8,
    ensures
        (p.0 as int, p.1 as int) == spec_idle_pos(step as int),
        p.0 < 5,
        p.1 < 5,
{
    if step == 0 {
        (1, 1)
    } else if step == 1 {
        (1, 2)
    } else if step == 2 {
        (1, 3)
    } else if step == 3 {
        (2, 3)
    } else if step == 4 {
        (3, 3)
    } else if step == 5 {
        (3, 2)
    } else if step == 6 {
        (3, 1)
    } else {
        (2, 1)
    }
}

/// What one idle step hands back to be carried out: the frame to show for
/// `IDLE_FRAME_MS`, and, once per completed traversal, the cycle-count
/// line for the diagnostic sink.
pub struct IdleStep {
    /// The frame lighting the step's single cell.
    pub frame: Frame,
    /// The cycle-count line, present after every eighth frame.
    pub message: Option<heapless::String<32>>,
}

impl System {
    /// One step of the idle loop: renders the next of the eight positions,
    /// locking display and timer together for the frame, and counts a
    /// cycle after the eighth. The embedding repeats this without end —
    /// the idle loop never returns, and every step leaves the next one
    /// enabled.
    pub fn idle(&mut self) -> (out: IdleStep)
        requires
            old(self).wf(),
            old(self).idle_count < u32::MAX,
        ensures
            final(self).wf(),
            (final(self).idle_step as int, final(self).idle_count as int) == spec_idle_next(
                old(self).idle_step as int,
                old(self).idle_count as int,
            ),
            out.frame.wf(),
            forall|x: int, y: int|
                0 <= x < 5 && 0 <= y < 5 ==> out.frame.at(x, y) == (
                if (x, y) == spec_idle_pos(old(self).idle_step as int) {
                    1u8
                } else {
                    0u8
                }),
            out.message is Some <==> old(self).idle_step == 7,
            out.message matches Some(m) ==> text_bytes(m) == "Idle count: ".spec_bytes()
                + dec_bytes(final(self).idle_count as nat),
            final(self).sched == old(self).sched,
            final(self).handler_count == old(self).handler_count,
            final(self).task_a_count == old(self).task_a_count,
            final(self).task_b_count == old(self).task_b_count,
            final(self).key == old(self).key,
    {
        let (x, y) = idle_pos(self.idle_step);

        // Critical section: display and timer locked together, the ceiling
        // raised to the higher of the two (both sit at the task ceiling).
        let mut locks = LockManager::new(PRIO_IDLE);
        locks.acquire(ResourceId::Display);
        locks.acquire(ResourceId::Timer);
        let frame = frame_matching(Some(x), Some(y));
        let released_timer = locks.release();
        let released_display = locks.release();
        proof {
            assert(released_timer == ResourceId::Timer);
            assert(released_display == ResourceId::Display);
            assert(locks.effective == PRIO_IDLE);
        }

        let message: Option<heapless::String<32>>;
        if self.idle_step == 7 {
            self.idle_step = 0;
            self.idle_count = self.idle_count + 1;
            proof {
                reveal_strlit("Idle count: ");
                assert(is_ascii("Idle count: "));
                is_ascii_spec_bytes("Idle count: ");
                assert("Idle count: ".spec_bytes().len() == 12);
                lemma_dec_bytes_len_u32(self.idle_count as nat);
            }
            message = Some(log_count("Idle count: ", self.idle_count));
        } else {
            self.idle_step = self.idle_step + 1;
            message = None;
        }

        proof {
            assert forall|x2: int, y2: int| 0 <= x2 < 5 && 0 <= y2 < 5 implies frame.at(x2, y2)
                == (if (x2, y2) == spec_idle_pos(old(self).idle_step as int) {
                1u8
            } else {
                0u8
            }) by {
                assert(frame.at(x2, y2) == spec_lit(Some(x), Some(y), x2, y2));
            }
        }
        IdleStep { frame, message }
    }
}

/// The idle position and cycle count after `n` frames from startup.
pub open spec fn spec_idle_after(n: nat) -> (int, int)
    decreases n,
{
    if n == 0 {
        (0, 0)
    } else {
        let prev = spec_idle_after((n - 1) as nat);
        spec_idle_next(prev.0, prev.1)
    }
}

/// The idle loop runs without bound, and its cycle counter advances by
/// exactly one for every eight rendered frames: after `n` frames it has
/// counted `n / 8` cycles and stands at position `n % 8`.
pub proof fn lemma_idle_cycle_counter(n: nat)
    ensures
        spec_idle_after(n).0 == n % 8,
        spec_idle_after(n).1 == n / 8,
    decreases n,
{
    if n > 0 {
        lemma_idle_cycle_counter((n - 1) as nat);
    }
}

} // verus!
