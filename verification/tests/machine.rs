//! The gesture state machine, scenario by scenario.

use gesture_interpreter::actions::SinkAction;
use gesture_interpreter::gesture::GestureMachine;
use gesture_interpreter::parser::GestureAction;

fn begin(fc: i32) -> GestureAction {
    GestureAction::SwipeBegin { finger_count: fc }
}

fn update(fc: i32, dx_milli: i32, dy_milli: i32) -> GestureAction {
    GestureAction::SwipeUpdate { finger_count: fc, dx_milli, dy_milli }
}

fn end(fc: i32, cancelled: bool) -> GestureAction {
    GestureAction::SwipeEnd { finger_count: fc, cancelled }
}

#[test]
fn wrong_finger_count_releases_and_emits_no_motion() {
    let mut m = GestureMachine::new();
    assert_eq!(m.on_gesture(begin(3)), vec![SinkAction::Press]);
    assert!(m.button_held);
    // A four-finger update while dragging: defensive release, no motion.
    assert_eq!(m.on_gesture(update(4, 500, 0)), vec![SinkAction::Release]);
    assert!(!m.button_held);
    // The same from idle, for begin and end records.
    assert_eq!(m.on_gesture(begin(2)), vec![SinkAction::Release]);
    assert_eq!(m.on_gesture(end(4, false)), vec![SinkAction::Release]);
    assert!(!m.button_held);
}

#[test]
fn half_unit_updates_emit_once_per_crossing_without_carry() {
    let mut m = GestureMachine::new();
    m.on_gesture(begin(3));
    // dx = 0.5 scaled by 3.0 gives 1.5: past the 1.0 threshold at once, so
    // every such update emits one move of round(1.5) = 2 and resets to (0,0).
    for _ in 0..3 {
        let out = m.on_gesture(update(3, 500, 0));
        assert_eq!(out, vec![SinkAction::MoveRelative { dx: 2, dy: 0 }]);
        assert_eq!((m.xsum_milli, m.ysum_milli), (0, 0));
    }
}

#[test]
fn sub_threshold_updates_accumulate_then_emit_once() {
    let mut m = GestureMachine::new();
    m.on_gesture(begin(3));
    // dx = 0.2 scaled by 3.0 gives 0.6: below the threshold, kept.
    assert_eq!(m.on_gesture(update(3, 200, 0)), Vec::<SinkAction>::new());
    assert_eq!((m.xsum_milli, m.ysum_milli), (600, 0));
    // The next one reaches 1.2: emit round(1.2) = 1, accumulator back to 0.
    assert_eq!(
        m.on_gesture(update(3, 200, 0)),
        vec![SinkAction::MoveRelative { dx: 1, dy: 0 }]
    );
    assert_eq!((m.xsum_milli, m.ysum_milli), (0, 0));
}

#[test]
fn negative_motion_crosses_the_threshold_too() {
    let mut m = GestureMachine::new();
    m.on_gesture(begin(3));
    assert_eq!(
        m.on_gesture(update(3, -500, -400)),
        vec![SinkAction::MoveRelative { dx: -2, dy: -1 }]
    );
    assert_eq!((m.xsum_milli, m.ysum_milli), (0, 0));
}

#[test]
fn swipe_end_flushes_and_schedules_delayed_release() {
    let mut m = GestureMachine::new();
    assert_eq!(m.on_gesture(begin(3)), vec![SinkAction::Press]);
    // dx = dy = 0.1 scaled by 3.0 gives 0.3: kept below the threshold.
    assert_eq!(m.on_gesture(update(3, 100, 100)), Vec::<SinkAction>::new());
    // The end flushes the sub-threshold remainder (rounding to 0 pixels)
    // and schedules the release after the 600 ms grace period.
    assert_eq!(
        m.on_gesture(end(3, false)),
        vec![
            SinkAction::MoveRelative { dx: 0, dy: 0 },
            SinkAction::ReleaseAfter { delay_ms: 600 },
        ]
    );
    assert!(!m.button_held);
    assert_eq!((m.xsum_milli, m.ysum_milli), (0, 0));
}

#[test]
fn cancelled_swipe_end_releases_immediately() {
    let mut m = GestureMachine::new();
    m.on_gesture(begin(3));
    assert_eq!(
        m.on_gesture(end(3, true)),
        vec![SinkAction::MoveRelative { dx: 0, dy: 0 }, SinkAction::Release]
    );
    assert!(!m.button_held);
}

#[test]
fn uncancelled_hold_end_releases_exactly_once() {
    let mut m = GestureMachine::new();
    m.on_gesture(begin(3));
    assert_eq!(m.on_gesture(GestureAction::HoldBegin), Vec::<SinkAction>::new());
    assert!(m.button_held);
    assert_eq!(
        m.on_gesture(GestureAction::HoldEnd { cancelled: false }),
        vec![SinkAction::Release]
    );
    assert!(!m.button_held);
}

#[test]
fn cancelled_hold_end_releases_nothing() {
    let mut m = GestureMachine::new();
    m.on_gesture(begin(3));
    m.on_gesture(GestureAction::HoldBegin);
    assert_eq!(
        m.on_gesture(GestureAction::HoldEnd { cancelled: true }),
        Vec::<SinkAction>::new()
    );
    assert!(m.button_held);
}

#[test]
fn hold_events_ignore_finger_count() {
    let mut m = GestureMachine::new();
    m.on_gesture(begin(3));
    // Hold lines report whatever finger count the device saw; they must not
    // trip the defensive release.
    assert_eq!(m.on_gesture(GestureAction::HoldBegin), Vec::<SinkAction>::new());
    assert!(m.button_held);
}

#[test]
fn other_gestures_release_defensively() {
    let mut m = GestureMachine::new();
    m.on_gesture(begin(3));
    assert_eq!(m.on_gesture(GestureAction::OtherGesture), vec![SinkAction::Release]);
    assert!(!m.button_held);
}
