//! The priority-ceiling lock protocol: ceilings from the binding table,
//! elevation to the maximum held ceiling, restoration on release, and
//! order-independence of nested acquisition.

use ceiling_core::lock::{ceiling, LockManager, ResourceId};
use ceiling_core::{PRIO_HANDLER, PRIO_IDLE, PRIO_TASK_A, PRIO_TASK_B};

#[test]
fn ceilings_follow_the_binding_table() {
    assert_eq!(ceiling(ResourceId::Gpiote), PRIO_HANDLER);
    assert_eq!(ceiling(ResourceId::Display), PRIO_TASK_B);
    assert_eq!(ceiling(ResourceId::Timer), PRIO_TASK_B);
}

#[test]
fn nested_locks_elevate_to_max_and_restore() {
    let mut m = LockManager::new(PRIO_IDLE);
    assert_eq!(m.effective, PRIO_IDLE);
    m.acquire(ResourceId::Display);
    assert_eq!(m.effective, PRIO_TASK_B);
    m.acquire(ResourceId::Timer);
    assert_eq!(m.effective, PRIO_TASK_B);
    assert_eq!(m.release(), ResourceId::Timer);
    assert_eq!(m.effective, PRIO_TASK_B);
    assert_eq!(m.release(), ResourceId::Display);
    assert_eq!(m.effective, PRIO_IDLE);
}

#[test]
fn acquisition_order_does_not_change_elevation() {
    let mut first_display = LockManager::new(PRIO_TASK_A);
    first_display.acquire(ResourceId::Display);
    first_display.acquire(ResourceId::Timer);

    let mut first_timer = LockManager::new(PRIO_TASK_A);
    first_timer.acquire(ResourceId::Timer);
    first_timer.acquire(ResourceId::Display);

    assert_eq!(first_display.effective, first_timer.effective);
    assert_eq!(first_display.effective, PRIO_TASK_B);
}

#[test]
fn lock_keeps_own_priority_when_at_the_ceiling() {
    let mut m = LockManager::new(PRIO_HANDLER);
    m.acquire(ResourceId::Gpiote);
    assert_eq!(m.effective, PRIO_HANDLER);
    assert_eq!(m.release(), ResourceId::Gpiote);
    assert_eq!(m.effective, PRIO_HANDLER);
}

#[test]
fn elevation_restores_through_deep_nesting() {
    let mut m = LockManager::new(PRIO_IDLE);
    m.acquire(ResourceId::Display);
    m.acquire(ResourceId::Timer);
    m.acquire(ResourceId::Gpiote);
    assert_eq!(m.effective, PRIO_HANDLER);
    m.release();
    assert_eq!(m.effective, PRIO_TASK_B);
    m.release();
    assert_eq!(m.effective, PRIO_TASK_B);
    m.release();
    assert_eq!(m.effective, PRIO_IDLE);
}
