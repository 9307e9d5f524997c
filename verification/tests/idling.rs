//! The idle loop: the eight-position traversal, the cycle counter, and
//! the unlocked read of the write-once key.

use ceiling_core::idle::IDLE_FRAME_MS;
use ceiling_core::system::System;
use ceiling_core::CoreError;

#[test]
fn idle_traverses_the_eight_positions() {
    let mut sys = System::init("hello");
    let positions = [(1, 1), (1, 2), (1, 3), (2, 3), (3, 3), (3, 2), (3, 1), (2, 1)];
    for (i, (px, py)) in positions.iter().enumerate() {
        let step = sys.idle();
        for x in 0..5 {
            for y in 0..5 {
                let expected = if (x, y) == (*px, *py) { 1 } else { 0 };
                assert_eq!(step.frame.cells[x][y], expected);
            }
        }
        if i < 7 {
            assert!(step.message.is_none());
        } else {
            assert_eq!(step.message.as_ref().unwrap().as_str(), "Idle count: 1");
        }
    }
    assert_eq!(sys.idle_count, 1);
    assert_eq!(sys.idle_step, 0);
    assert_eq!(IDLE_FRAME_MS, 250);
}

#[test]
fn idle_counts_one_cycle_per_eight_frames() {
    let mut sys = System::init("hello");
    for frame in 1..=24u32 {
        let step = sys.idle();
        assert_eq!(step.message.is_some(), frame % 8 == 0);
        assert_eq!(sys.idle_count, frame / 8);
        assert_eq!(u32::from(sys.idle_step), frame % 8);
    }
    assert_eq!(sys.idle_count, 3);
}

#[test]
fn greeting_shows_the_key() {
    let sys = System::init("hello");
    let m = sys.idle_greeting().unwrap();
    assert_eq!(m.as_str(), "The key is: hello");
}

#[test]
fn greeting_overflows_on_a_long_key() {
    let sys = System::init("a-key-too-long-to-fit-the-line");
    assert_eq!(sys.idle_greeting(), Err(CoreError::BufferOverflow));
}

#[test]
fn idle_leaves_the_rest_of_the_system_alone() {
    let mut sys = System::init("hello");
    let _ = sys.idle();
    assert_eq!(sys.handler_count, 0);
    assert_eq!(sys.task_a_count, 0);
    assert_eq!(sys.task_b_count, 0);
    assert_eq!(sys.key.as_str(), "hello");
}
