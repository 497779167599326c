//! The scroll navigation debouncer and its commit gating.

use gesture_interpreter::actions::{NavCombo, SinkAction};
use gesture_interpreter::parser::ScrollSample;
use gesture_interpreter::scroll::{commit_actions, ScrollDebouncer};

fn frame(vertical_milli: i32, horizontal_milli: i32) -> ScrollSample {
    ScrollSample { vertical_milli, horizontal_milli }
}

#[test]
fn one_episode_commits_exactly_once_when_navigable() {
    let mut d = ScrollDebouncer::new();
    // Repeated frames past the threshold arm the combo once.
    for _ in 0..3 {
        assert_eq!(d.on_sample(frame(0, 12_000)), None);
        assert_eq!(d.pending, Some(NavCombo::Back));
    }
    // The settle frame makes the commit due and clears the pending state.
    assert_eq!(d.on_sample(frame(0, 0)), Some(NavCombo::Back));
    assert_eq!(d.pending, None);
    // Focus is navigable: exactly one key combo.
    assert_eq!(
        commit_actions(NavCombo::Back, true),
        vec![SinkAction::KeyCombo { combo: NavCombo::Back }]
    );
    // A second settle frame has nothing left to commit.
    assert_eq!(d.on_sample(frame(0, 0)), None);
}

#[test]
fn no_combo_is_emitted_when_focus_is_not_navigable() {
    let mut d = ScrollDebouncer::new();
    assert_eq!(d.on_sample(frame(0, 12_000)), None);
    assert_eq!(d.on_sample(frame(0, 0)), Some(NavCombo::Back));
    assert_eq!(commit_actions(NavCombo::Back, false), Vec::<SinkAction>::new());
    assert_eq!(d.pending, None);
}

#[test]
fn leftward_scroll_arms_forward() {
    let mut d = ScrollDebouncer::new();
    assert_eq!(d.on_sample(frame(0, -15_000)), None);
    assert_eq!(d.pending, Some(NavCombo::Forward));
    assert_eq!(d.on_sample(frame(0, 0)), Some(NavCombo::Forward));
    assert_eq!(
        commit_actions(NavCombo::Forward, true),
        vec![SinkAction::KeyCombo { combo: NavCombo::Forward }]
    );
}

#[test]
fn sub_threshold_motion_changes_nothing() {
    let mut d = ScrollDebouncer::new();
    assert_eq!(d.on_sample(frame(500, 3_000)), None);
    assert_eq!(d.pending, None);
    // Mid-episode sub-threshold motion is absorbed silently.
    d.on_sample(frame(0, 12_000));
    assert_eq!(d.on_sample(frame(200, -1_000)), None);
    assert_eq!(d.pending, Some(NavCombo::Back));
}

#[test]
fn an_armed_combo_is_not_rearmed_by_opposite_motion() {
    let mut d = ScrollDebouncer::new();
    d.on_sample(frame(0, 12_000));
    assert_eq!(d.on_sample(frame(0, -12_000)), None);
    assert_eq!(d.pending, Some(NavCombo::Back));
}

#[test]
fn clear_abandons_the_episode_without_emitting() {
    let mut d = ScrollDebouncer::new();
    d.on_sample(frame(0, 12_000));
    d.clear();
    assert_eq!(d.pending, None);
    assert_eq!(d.on_sample(frame(0, 0)), None);
}

#[test]
fn combo_text_matches_the_injection_tool_syntax() {
    assert_eq!(NavCombo::Back.text(), "Alt+Left");
    assert_eq!(NavCombo::Forward.text(), "Alt+Right");
}
