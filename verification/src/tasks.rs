//! The two button animation tasks and the frames they render.
//!
//! Each task, once activated, renders five frames on the 5×5 LED matrix:
//! task A sweeps the first coordinate, task B the second, lighting one full
//! line per frame (each frame lights only its own line, so the previous one
//! is cleared by the next frame). The coordinate order is a fixed design
//! fixture, not derived geometry.

use crate::text::{dec_bytes, lemma_dec_bytes_len_u32, log_count, text_bytes};
use vstd::prelude::*;
use vstd::string::{is_ascii, is_ascii_spec_bytes, StringSliceAdditionalSpecFns};

verus! {

/// Duration, in milliseconds, of one button-animation frame.
pub const TASK_FRAME_MS: u32 = 400;

/// One 5×5 LED image, indexed `cells[x][y]`; 1 is lit, 0 is dark.
pub struct Frame {
    pub cells: Vec<Vec<u8>>,
}

impl Frame {
    /// A frame is a full 5×5 grid.
    pub open spec fn wf(self) -> bool {
        &&& self.cells@.len() == 5
        &&& forall|x: int| 0 <= x < 5 ==> (#[trigger] self.cells@[x])@.len() == 5
    }

    /// The cell at `(x, y)`.
    pub open spec fn at(self, x: int, y: int) -> u8 {
        self.cells@[x]@[y]
    }
}

/// Whether the cell `(x, y)` is lit under the constraints `ax` and `ay`:
/// lit exactly when `x` equals `ax` (if one is given) and `y` equals `ay`
/// (if one is given).
pub open spec fn spec_lit(ax: Option<u8>, ay: Option<u8>, x: int, y: int) -> u8 {
    if (ax matches Some(a) ==> x == a) && (ay matches Some(b) ==> y == b) {
        1u8
    } else {
        0u8
    }
}

/// Builds the frame that lights exactly the cells matching both
/// constraints: one cell, one line of the first coordinate, or one line of
/// the second.
pub fn frame_matching(ax: Option<u8>, ay: Option<u8>) -> (f: Frame)
    ensures
        f.wf(),
        forall|x: int, y: int|
            0 <= x < 5 && 0 <= y < 5 ==> f.at(x, y) == spec_lit(ax, ay, x, y),
{
    let mut cells: Vec<Vec<u8>> = Vec::new();
    let mut x: usize = 0;
    while x < 5
        invariant
            0 <= x <= 5,
            cells@.len() == x,
            forall|i: int| 0 <= i < x ==> (#[trigger] cells@[i])@.len() == 5,
            forall|i: int, j: int|
                0 <= i < x && 0 <= j < 5 ==> cells@[i]@[j] == spec_lit(ax, ay, i, j),
        decreases 5 - x,
    {
        let mut row: Vec<u8> = Vec::new();
        let mut y: usize = 0;
        while y < 5
            invariant
                0 <= y <= 5,
                row@.len() == y,
                forall|j: int| 0 <= j < y ==> row@[j] == spec_lit(ax, ay, x as int, j),
            decreases 5 - y,
        {
            let x_hit = match ax {
                Some(a) => x == a as usize,
                None => true,
            };
            let y_hit = match ay {
                Some(b) => y == b as usize,
                None => true,
            };
            row.push(if x_hit && y_hit { 1 } else { 0 });
            y = y + 1;
        }
        cells.push(row);
        x = x + 1;
    }
    Frame { cells }
}

/// What one activation of a button task hands back to be carried out: the
/// frames to show in order, each for `TASK_FRAME_MS`, and the count line
/// for the diagnostic sink.
pub struct TaskOutput {
    /// The five frames of the animation, in render order.
    pub frames: Vec<Frame>,
    /// The task's invocation-count line.
    pub message: heapless::String<32>,
}

/// One activation of the button-A task: bumps its invocation count and
/// renders five frames, the `k`-th lighting the full line `x == k`.
pub fn button_a_action(count: &mut u32) -> (out: TaskOutput)
    requires
        *old(count) < u32::MAX,
    ensures
        *final(count) == *old(count) + 1,
        text_bytes(out.message) == "Task A count: ".spec_bytes() + dec_bytes(
            (*old(count) + 1) as nat,
        ),
        out.frames@.len() == 5,
        forall|k: int| 0 <= k < 5 ==> (#[trigger] out.frames@[k]).wf(),
        forall|k: int, x: int, y: int|
            0 <= k < 5 && 0 <= x < 5 && 0 <= y < 5 ==> out.frames@[k].at(x, y) == (
            if x == k {
                1u8
            } else {
                0u8
            }),
{
    *count = *count + 1;
    proof {
        reveal_strlit("Task A count: ");
        assert(is_ascii("Task A count: "));
        is_ascii_spec_bytes("Task A count: ");
        assert("Task A count: ".spec_bytes().len() == 14);
        lemma_dec_bytes_len_u32(*count as nat);
    }
    let message = log_count("Task A count: ", *count);
    let mut frames: Vec<Frame> = Vec::new();
    let mut k: usize = 0;
    while k < 5
        invariant
            0 <= k <= 5,
            frames@.len() == k,
            forall|i: int| 0 <= i < k ==> (#[trigger] frames@[i]).wf(),
            forall|i: int, x: int, y: int|
                0 <= i < k && 0 <= x < 5 && 0 <= y < 5 ==> frames@[i].at(x, y) == (
                if x == i {
                    1u8
                } else {
                    0u8
                }),
        decreases 5 - k,
    {
        frames.push(frame_matching(Some(k as u8), None));
        k = k + 1;
    }
    TaskOutput { frames, message }
}

/// One activation of the button-B task: bumps its invocation count and
/// renders five frames, the `k`-th lighting the full line `y == k`.
pub fn button_b_action(count: &mut u32) -> (out: TaskOutput)
    requires
        *old(count) < u32::MAX,
    ensures
        *final(count) == *old(count) + 1,
        text_bytes(out.message) == "Task B count: ".spec_bytes() + dec_bytes(
            (*old(count) + 1) as nat,
        ),
        out.frames@.len() == 5,
        forall|k: int| 0 <= k < 5 ==> (#[trigger] out.frames@[k]).wf(),
        forall|k: int, x: int, y: int|
            0 <= k < 5 && 0 <= x < 5 && 0 <= y < 5 ==> out.frames@[k].at(x, y) == (
            if y == k {
                1u8
            } else {
                0u8
            }),
{
    *count = *count + 1;
    proof {
        reveal_strlit("Task B count: ");
        assert(is_ascii("Task B count: "));
        is_ascii_spec_bytes("Task B count: ");
        assert("Task B count: ".spec_bytes().len() == 14);
        lemma_dec_bytes_len_u32(*count as nat);
    }
    let message = log_count("Task B count: ", *count);
    let mut frames: Vec<Frame> = Vec::new();
    let mut k: usize = 0;
    while k < 5
        invariant
            0 <= k <= 5,
            frames@.len() == k,
            forall|i: int| 0 <= i < k ==> (#[trigger] frames@[i]).wf(),
            forall|i: int, x: int, y: int|
                0 <= i < k && 0 <= x < 5 && 0 <= y < 5 ==> frames@[i].at(x, y) == (
                if y == i {
                    1u8
                } else {
                    0u8
                }),
        decreases 5 - k,
    {
        frames.push(frame_matching(None, Some(k as u8)));
        k = k + 1;
    }
    TaskOutput { frames, message }
}

} // verus!
