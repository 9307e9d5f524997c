//! Message composition: exact concatenation within capacity, whole-or-
//! nothing failure beyond it, and decimal count rendering.

use ceiling_core::dispatch::button_pressed_action;
use ceiling_core::text::{compose_string, log_count, u32_dec_digits};
use ceiling_core::CoreError;

#[test]
fn compose_exact_concatenation() {
    let s = compose_string(&["foo", "bar", "!"]).unwrap();
    assert_eq!(s.as_str(), "foobar!");
}

#[test]
fn compose_empty_is_empty() {
    let s = compose_string(&[]).unwrap();
    assert_eq!(s.as_str(), "");
}

#[test]
fn compose_fills_to_capacity() {
    let part = "0123456789abcdef";
    let s = compose_string(&[part, part]).unwrap();
    assert_eq!(s.as_str(), "0123456789abcdef0123456789abcdef");
    assert_eq!(s.as_str().len(), 32);
}

#[test]
fn compose_overflow_fails_whole() {
    let part = "0123456789abcdef";
    let r = compose_string(&[part, part, "x"]);
    assert_eq!(r, Err(CoreError::BufferOverflow));
}

#[test]
fn digits_render_exactly() {
    assert_eq!(u32_dec_digits(0), vec![b'0']);
    assert_eq!(u32_dec_digits(7), vec![b'7']);
    assert_eq!(u32_dec_digits(407), vec![b'4', b'0', b'7']);
    assert_eq!(u32_dec_digits(u32::MAX), b"4294967295".to_vec());
}

#[test]
fn count_line_renders_message_and_value() {
    let m = log_count("Idle count: ", 42);
    assert_eq!(m.as_str(), "Idle count: 42");
}

#[test]
fn longest_count_line_fits_exactly() {
    let m = log_count("button pressed count: ", u32::MAX);
    assert_eq!(m.as_str(), "button pressed count: 4294967295");
    assert_eq!(m.as_str().len(), 32);
}

#[test]
fn synchronous_path_reports_press() {
    let m = button_pressed_action(true, "A").unwrap();
    assert_eq!(m.as_str(), "Button A has been pressed");
}

#[test]
fn synchronous_path_ignores_quiet_channel() {
    assert!(button_pressed_action(false, "B").is_none());
}
