//! Dispatch, activation and the interrupt handler: highest-priority-first
//! preemptive dispatch, the capacity-1 pending slot, and the exact
//! diagnostic lines of the handler.

use ceiling_core::sched::{Scheduler, TaskState};
use ceiling_core::system::System;
use ceiling_core::tasks::{button_a_action, TASK_FRAME_MS};
use ceiling_core::{CoreError, TaskId, PRIO_IDLE, PRIO_TASK_A, PRIO_TASK_B};

#[test]
fn dispatch_prefers_the_higher_priority() {
    let mut s = Scheduler::new();
    s.spawn(TaskId::ButtonA).unwrap();
    s.spawn(TaskId::ButtonB).unwrap();
    assert_eq!(s.dispatch(PRIO_IDLE), Some(TaskId::ButtonB));
    assert_eq!(s.dispatch(PRIO_TASK_A), Some(TaskId::ButtonB));
    assert_eq!(s.dispatch(PRIO_TASK_B), None);
}

#[test]
fn dispatch_finds_nothing_when_all_slots_are_free() {
    let s = Scheduler::new();
    assert_eq!(s.dispatch(PRIO_IDLE), None);
}

#[test]
fn earlier_trigger_carries_the_earlier_stamp() {
    let mut s = Scheduler::new();
    s.spawn(TaskId::ButtonA).unwrap();
    s.spawn(TaskId::ButtonB).unwrap();
    assert!(s.tasks[0].stamp < s.tasks[1].stamp);
}

#[test]
fn occupied_slot_rejects_a_second_activation() {
    let mut s = Scheduler::new();
    assert_eq!(s.spawn(TaskId::ButtonA), Ok(()));
    assert_eq!(s.spawn(TaskId::ButtonA), Err(CoreError::QueueFull));
    assert_eq!(s.tasks[0].state, TaskState::Pending);
}

#[test]
fn instance_lifecycle_round_trip() {
    let mut s = Scheduler::new();
    s.spawn(TaskId::ButtonA).unwrap();
    assert_eq!(s.tasks[0].state, TaskState::Pending);
    s.start(TaskId::ButtonA);
    assert_eq!(s.tasks[0].state, TaskState::Running);
    s.suspend(TaskId::ButtonA);
    assert_eq!(s.tasks[0].state, TaskState::Suspended);
    s.resume(TaskId::ButtonA);
    assert_eq!(s.tasks[0].state, TaskState::Running);
    s.complete(TaskId::ButtonA);
    assert_eq!(s.tasks[0].state, TaskState::Idle);
    assert_eq!(s.spawn(TaskId::ButtonA), Ok(()));
}

#[test]
fn single_edge_activates_exactly_once() {
    let mut sys = System::init("hello");
    let rep = sys.button_pressed(true, false);
    assert!(rep.clear_chan0);
    assert!(!rep.clear_chan1);
    assert_eq!(rep.spawn_chan0, Some(Ok(())));
    assert_eq!(rep.spawn_chan1, None);
    let lines: Vec<&str> = rep.messages.iter().map(|m| m.as_str()).collect();
    assert_eq!(lines, vec!["button pressed count: 1", "Button A pressed"]);

    assert_eq!(sys.sched.dispatch(PRIO_IDLE), Some(TaskId::ButtonA));
    sys.sched.start(TaskId::ButtonA);
    let out = button_a_action(&mut sys.task_a_count);
    sys.sched.complete(TaskId::ButtonA);

    assert_eq!(out.message.as_str(), "Task A count: 1");
    assert_eq!(out.frames.len(), 5);
    for (k, frame) in out.frames.iter().enumerate() {
        for x in 0..5 {
            for y in 0..5 {
                let expected = if x == k { 1 } else { 0 };
                assert_eq!(frame.cells[x][y], expected);
            }
        }
    }
    assert_eq!(TASK_FRAME_MS, 400);
    assert_eq!(sys.task_a_count, 1);
    assert_eq!(sys.sched.tasks[0].state, TaskState::Idle);
}

#[test]
fn second_edge_while_busy_is_queue_full() {
    let mut sys = System::init("hello");
    let first = sys.button_pressed(true, false);
    assert_eq!(first.spawn_chan0, Some(Ok(())));

    let second = sys.button_pressed(true, false);
    assert_eq!(second.spawn_chan0, Some(Err(CoreError::QueueFull)));
    let lines: Vec<&str> = second.messages.iter().map(|m| m.as_str()).collect();
    assert_eq!(
        lines,
        vec!["button pressed count: 2", "Button A pressed", "failed to spawn task!"]
    );

    sys.sched.start(TaskId::ButtonA);
    let _ = button_a_action(&mut sys.task_a_count);
    sys.sched.complete(TaskId::ButtonA);
    assert_eq!(sys.task_a_count, 1);
    assert_eq!(sys.sched.tasks[0].state, TaskState::Idle);
}

#[test]
fn spaced_edges_each_activate() {
    let mut sys = System::init("hello");
    for n in 1..=3u32 {
        let rep = sys.button_pressed(true, false);
        assert_eq!(rep.spawn_chan0, Some(Ok(())));
        sys.sched.start(TaskId::ButtonA);
        let _ = button_a_action(&mut sys.task_a_count);
        sys.sched.complete(TaskId::ButtonA);
        assert_eq!(sys.task_a_count, n);
    }
    assert_eq!(sys.handler_count, 3);
}

#[test]
fn both_channels_activate_in_trigger_order() {
    let mut sys = System::init("hello");
    let rep = sys.button_pressed(true, true);
    assert_eq!(rep.spawn_chan0, Some(Ok(())));
    assert_eq!(rep.spawn_chan1, Some(Ok(())));
    let lines: Vec<&str> = rep.messages.iter().map(|m| m.as_str()).collect();
    assert_eq!(
        lines,
        vec!["button pressed count: 1", "Button A pressed", "Button B pressed"]
    );
    assert!(sys.sched.tasks[0].stamp < sys.sched.tasks[1].stamp);
    // The higher-priority channel-1 task preempts first.
    assert_eq!(sys.sched.dispatch(PRIO_IDLE), Some(TaskId::ButtonB));
}

#[test]
fn quiet_interrupt_touches_no_slot() {
    let mut sys = System::init("hello");
    let rep = sys.button_pressed(false, false);
    assert!(!rep.clear_chan0);
    assert!(!rep.clear_chan1);
    assert_eq!(rep.spawn_chan0, None);
    assert_eq!(rep.spawn_chan1, None);
    let lines: Vec<&str> = rep.messages.iter().map(|m| m.as_str()).collect();
    assert_eq!(lines, vec!["button pressed count: 1"]);
    assert_eq!(sys.sched.tasks[0].state, TaskState::Idle);
    assert_eq!(sys.sched.tasks[1].state, TaskState::Idle);
}

#[test]
fn task_b_sweeps_the_second_coordinate() {
    let mut sys = System::init("hello");
    let rep = sys.button_pressed(false, true);
    assert_eq!(rep.spawn_chan1, Some(Ok(())));
    sys.sched.start(TaskId::ButtonB);
    let out = ceiling_core::tasks::button_b_action(&mut sys.task_b_count);
    sys.sched.complete(TaskId::ButtonB);
    assert_eq!(out.message.as_str(), "Task B count: 1");
    assert_eq!(out.frames.len(), 5);
    for (k, frame) in out.frames.iter().enumerate() {
        for x in 0..5 {
            for y in 0..5 {
                let expected = if y == k { 1 } else { 0 };
                assert_eq!(frame.cells[x][y], expected);
            }
        }
    }
}
