//! Core of a single-core, interrupt-driven task system: static-priority
//! dispatch, priority-ceiling resource locking, bounded (capacity-1) task
//! activation, and the frame logic of the button and idle animations.
//!
//! Hardware peripherals (button edge detector, LED display, timer) and the
//! diagnostic sink are external collaborators: this crate computes the
//! decisions and the frames; an embedding runs the loop and touches hardware.

pub mod dispatch;
pub mod idle;
pub mod lock;
pub mod sched;
pub mod system;
pub mod tasks;
pub mod text;

use vstd::prelude::*;

verus! {

/// Priority of the idle loop: the lowest; it runs when nothing else can.
pub const PRIO_IDLE: u8 = 0;
/// Static priority of the button-A animation task.
pub const PRIO_TASK_A: u8 = 1;
/// Static priority of the button-B animation task.
pub const PRIO_TASK_B: u8 = 2;
/// Priority of the hardware button interrupt handler: above every task.
pub const PRIO_HANDLER: u8 = 3;

/// The two software tasks, one per button channel.
#[derive(Clone, Copy, PartialEq, Eq, Structural, Debug)]
pub enum TaskId {
    ButtonA,
    ButtonB,
}

/// The non-fatal and fatal failure conditions of the core.
#[derive(Clone, Copy, PartialEq, Eq, Structural, Debug)]
pub enum CoreError {
    /// A task's single pending-instance slot was already occupied when a
    /// new activation was requested; the event is dropped.
    QueueFull,
    /// Composing a fixed-capacity message from parts that exceed its
    /// capacity; no partial output is produced.
    BufferOverflow,
}

impl TaskId {
    /// The static priority of a task, fixed at build time.
    pub open spec fn spec_priority(self) -> u8 {
        match self {
            TaskId::ButtonA => PRIO_TASK_A,
            TaskId::ButtonB => PRIO_TASK_B,
        }
    }

    /// Executable form of the static priority table.
    pub fn priority(self) -> (p: u8)
        ensures
            p == self.spec_priority(),
    {
        match self {
            TaskId::ButtonA => PRIO_TASK_A,
            TaskId::ButtonB => PRIO_TASK_B,
        }
    }
}

} // verus!
