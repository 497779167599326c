//! The interpreter end to end: raw lines in, actions and focus queries out.

use gesture_interpreter::actions::{NavCombo, SinkAction};
use gesture_interpreter::interpreter::Interpreter;

#[test]
fn drag_flow_from_raw_lines() {
    let mut it = Interpreter::new();
    let out = it.on_line("event10  GESTURE_SWIPE_BEGIN +3.146s\t3");
    assert_eq!(out.actions, vec![SinkAction::Press]);
    assert_eq!(out.focus_query, None);
    let out = it.on_line(
        "event10  GESTURE_SWIPE_UPDATE +3.200s\t3  0.50/ 0.00 ( 1.50/ 0.00 unaccelerated)",
    );
    assert_eq!(out.actions, vec![SinkAction::MoveRelative { dx: 2, dy: 0 }]);
    let out = it.on_line("event10  GESTURE_SWIPE_END +4.255s\t3");
    assert_eq!(
        out.actions,
        vec![
            SinkAction::MoveRelative { dx: 0, dy: 0 },
            SinkAction::ReleaseAfter { delay_ms: 600 },
        ]
    );
    assert!(!it.gesture.button_held);
}

#[test]
fn scroll_flow_queries_focus_only_at_settle() {
    let mut it = Interpreter::new();
    let out = it.on_line(
        "event9   POINTER_SCROLL_FINGER   +0.247s\tvert 0.00/0.0 horiz 12.5/0.0* (finger)",
    );
    assert_eq!(out.actions, Vec::<SinkAction>::new());
    assert_eq!(out.focus_query, None);
    assert_eq!(it.scroll.pending, Some(NavCombo::Back));
    let out = it.on_line(
        "event9   POINTER_SCROLL_FINGER   +0.300s\tvert 0.00/0.0 horiz 0.00/0.0* (finger)",
    );
    assert_eq!(out.actions, Vec::<SinkAction>::new());
    assert_eq!(out.focus_query, Some(NavCombo::Back));
    assert_eq!(it.scroll.pending, None);
}

#[test]
fn gesture_line_clears_pending_combo_without_emitting() {
    let mut it = Interpreter::new();
    it.on_line("event9   POINTER_SCROLL_FINGER   +0.247s\tvert 0.00/0.0 horiz 12.5/0.0* (finger)");
    assert_eq!(it.scroll.pending, Some(NavCombo::Back));
    let out = it.on_line("event10  GESTURE_HOLD_BEGIN +5.001s\t2");
    assert_eq!(it.scroll.pending, None);
    assert_eq!(out.focus_query, None);
    assert!(!out.actions.iter().any(|a| matches!(a, SinkAction::KeyCombo { .. })));
}

#[test]
fn noise_line_releases_button_and_clears_pending() {
    let mut it = Interpreter::new();
    it.on_line("event10  GESTURE_SWIPE_BEGIN +3.146s\t3");
    it.on_line("event9   POINTER_SCROLL_FINGER   +3.2s\tvert 0.00/0.0 horiz 12.5/0.0* (finger)");
    let out = it.on_line("event4   POINTER_MOTION +3.245s\t 0.62/ 1.22");
    assert_eq!(out.actions, vec![SinkAction::Release]);
    assert!(!it.gesture.button_held);
    assert_eq!(it.scroll.pending, None);
    // Idempotently again on a second noise line.
    let out = it.on_line("-event4   DEVICE_ADDED   Video Bus seat0");
    assert_eq!(out.actions, vec![SinkAction::Release]);
}

#[test]
fn short_scroll_line_changes_nothing() {
    let mut it = Interpreter::new();
    it.on_line("event9   POINTER_SCROLL_FINGER   +0.247s\tvert 0.00/0.0 horiz 12.5/0.0* (finger)");
    let out = it.on_line("event9 POINTER_SCROLL_FINGER +0.3s vert");
    assert_eq!(out.actions, Vec::<SinkAction>::new());
    assert_eq!(it.scroll.pending, Some(NavCombo::Back));
}

#[test]
fn cancelled_swipe_from_raw_lines_releases_immediately() {
    let mut it = Interpreter::new();
    it.on_line("event10  GESTURE_SWIPE_BEGIN +3.146s\t3");
    let out = it.on_line("event10  GESTURE_SWIPE_END +4.255s\t3 cancelled");
    assert_eq!(
        out.actions,
        vec![SinkAction::MoveRelative { dx: 0, dy: 0 }, SinkAction::Release]
    );
    assert!(!it.gesture.button_held);
}

#[test]
fn four_finger_swipe_releases_without_motion() {
    let mut it = Interpreter::new();
    it.on_line("event10  GESTURE_SWIPE_BEGIN +3.146s\t3");
    let out = it.on_line(
        "event10  GESTURE_SWIPE_UPDATE +3.200s\t4  0.50/ 0.00 ( 1.50/ 0.00 unaccelerated)",
    );
    assert_eq!(out.actions, vec![SinkAction::Release]);
    assert!(!it.gesture.button_held);
}
