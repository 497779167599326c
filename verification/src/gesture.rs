//! The gesture state machine: three-finger swipes drive a held-button drag
//! with an accumulated, thresholded relative motion; hold events keep or
//! release the button; everything else releases it defensively.

use vstd::prelude::*;
use crate::actions::SinkAction;
use crate::parser::GestureAction;

verus! {

/// Finger count a swipe must report to be accepted.
pub const REQUIRED_FINGERS: i32 = 3;

/// Swipe deltas are scaled by this acceleration factor.
pub const SWIPE_ACCEL: i32 = 3;

/// Accumulated motion above this magnitude (in milli-units) is emitted.
pub const EMIT_THRESHOLD_MILLI: i32 = 1000;

/// Grace delay before the button is released after an uncancelled swipe.
pub const RELEASE_DELAY_MS: u64 = 600;

/// Drag state and swipe accumulator. The accumulator holds the motion
/// fragment still below the emission threshold, in milli-units.
#[derive(Clone, Copy, PartialEq, Eq, Structural, Debug)]
pub struct GestureMachine {
    pub button_held: bool,
    pub xsum_milli: i32,
    pub ysum_milli: i32,
}

/// Milli-units rounded to whole units, half away from zero.
pub open spec fn round_milli(v: int) -> int {
    if v >= 0 {
        (v + 500) / 1000
    } else {
        -((-v + 500) / 1000)
    }
}

/// Swipe events are accepted only with the required finger count; hold
/// events and other gestures are not finger-guarded.
pub open spec fn rejects_fingers(a: GestureAction) -> bool {
    match a {
        GestureAction::SwipeBegin { finger_count } => finger_count != REQUIRED_FINGERS,
        GestureAction::SwipeUpdate { finger_count, .. } => finger_count != REQUIRED_FINGERS,
        GestureAction::SwipeEnd { finger_count, .. } => finger_count != REQUIRED_FINGERS,
        _ => false,
    }
}

impl GestureMachine {
    /// The pending accumulator fragment always stays below the emission
    /// threshold.
    pub open spec fn wf(self) -> bool {
        -EMIT_THRESHOLD_MILLI <= self.xsum_milli <= EMIT_THRESHOLD_MILLI
            && -EMIT_THRESHOLD_MILLI <= self.ysum_milli <= EMIT_THRESHOLD_MILLI
    }
}

/// The transition table: next state and emitted actions for one gesture
/// event.
pub open spec fn gesture_step(m: GestureMachine, a: GestureAction) -> (GestureMachine, Seq<
    SinkAction,
>) {
    if rejects_fingers(a) {
        // Defensive release: a swipe with the wrong finger count ends any
        // drag and emits no motion.
        (GestureMachine { button_held: false, ..m }, seq![SinkAction::Release])
    } else {
        match a {
            GestureAction::SwipeBegin { .. } => (
                GestureMachine { button_held: true, xsum_milli: 0, ysum_milli: 0 },
                seq![SinkAction::Press],
            ),
            GestureAction::SwipeUpdate { finger_count: _, dx_milli, dy_milli } => {
                let nx = m.xsum_milli + SWIPE_ACCEL * dx_milli;
                let ny = m.ysum_milli + SWIPE_ACCEL * dy_milli;
                if nx > EMIT_THRESHOLD_MILLI || nx < -EMIT_THRESHOLD_MILLI || ny
                    > EMIT_THRESHOLD_MILLI || ny < -EMIT_THRESHOLD_MILLI {
                    // The fractional remainder is discarded, not carried
                    // forward.
                    (
                        GestureMachine { button_held: m.button_held, xsum_milli: 0, ysum_milli: 0 },
                        seq![
                            SinkAction::MoveRelative {
                                dx: round_milli(nx) as i32,
                                dy: round_milli(ny) as i32,
                            },
                        ],
                    )
                } else {
                    (
                        GestureMachine {
                            button_held: m.button_held,
                            xsum_milli: nx as i32,
                            ysum_milli: ny as i32,
                        },
                        Seq::empty(),
                    )
                }
            },
            GestureAction::SwipeEnd { finger_count: _, cancelled } => (
                GestureMachine { button_held: false, xsum_milli: 0, ysum_milli: 0 },
                seq![
                    SinkAction::MoveRelative {
                        dx: round_milli(m.xsum_milli as int) as i32,
                        dy: round_milli(m.ysum_milli as int) as i32,
                    },
                    if cancelled {
                        SinkAction::Release
                    } else {
                        SinkAction::ReleaseAfter { delay_ms: RELEASE_DELAY_MS }
                    },
                ],
            ),
            GestureAction::HoldBegin => (m, Seq::empty()),
            GestureAction::HoldEnd { cancelled } => {
                if cancelled {
                    // An accidental hold while repositioning must not drop
                    // the drag.
                    (m, Seq::empty())
                } else {
                    (GestureMachine { button_held: false, ..m }, seq![SinkAction::Release])
                }
            },
            GestureAction::OtherGesture => (
                GestureMachine { button_held: false, ..m },
                seq![SinkAction::Release],
            ),
        }
    }
}

/// Milli-units rounded to whole units, half away from zero.
fn round_milli_exec(v: i64) -> (r: i64)
    requires
        -10_000_000_000 <= v <= 10_000_000_000,
    ensures
        r as int == round_milli(v as int),
        -10_000_001 <= r <= 10_000_001,
{
    if v >= 0 {
        (v + 500) / 1000
    } else {
        -((-v + 500) / 1000)
    }
}

impl GestureMachine {
    /// The idle machine: no drag, empty accumulator.
    pub fn new() -> (m: GestureMachine)
        ensures
            m == (GestureMachine { button_held: false, xsum_milli: 0, ysum_milli: 0 }),
            m.wf(),
    {
        GestureMachine { button_held: false, xsum_milli: 0, ysum_milli: 0 }
    }

    /// Consume one gesture event; the returned actions are to be performed
    /// in order.
    pub fn on_gesture(&mut self, a: GestureAction) -> (out: Vec<SinkAction>)
        requires
            old(self).wf(),
        ensures
            final(self).wf(),
            (*final(self), out@) == gesture_step(*old(self), a),
    {
        match a {
            GestureAction::SwipeBegin { finger_count } => {
                if finger_count != REQUIRED_FINGERS {
                    self.button_held = false;
                    vec![SinkAction::Release]
                } else {
                    self.button_held = true;
                    self.xsum_milli = 0;
                    self.ysum_milli = 0;
                    vec![SinkAction::Press]
                }
            },
            GestureAction::SwipeUpdate { finger_count, dx_milli, dy_milli } => {
                if finger_count != REQUIRED_FINGERS {
                    self.button_held = false;
                    vec![SinkAction::Release]
                } else {
                    let nx: i64 = self.xsum_milli as i64 + 3 * (dx_milli as i64);
                    let ny: i64 = self.ysum_milli as i64 + 3 * (dy_milli as i64);
                    if nx > EMIT_THRESHOLD_MILLI as i64 || nx < -(EMIT_THRESHOLD_MILLI as i64)
                        || ny > EMIT_THRESHOLD_MILLI as i64 || ny < -(EMIT_THRESHOLD_MILLI
                        as i64) {
                        let rx = round_milli_exec(nx);
                        let ry = round_milli_exec(ny);
                        self.xsum_milli = 0;
                        self.ysum_milli = 0;
                        vec![SinkAction::MoveRelative { dx: rx as i32, dy: ry as i32 }]
                    } else {
                        self.xsum_milli = nx as i32;
                        self.ysum_milli = ny as i32;
                        Vec::new()
                    }
                }
            },
            GestureAction::SwipeEnd { finger_count, cancelled } => {
                if finger_count != REQUIRED_FINGERS {
                    self.button_held = false;
                    vec![SinkAction::Release]
                } else {
                    let rx = round_milli_exec(self.xsum_milli as i64);
                    let ry = round_milli_exec(self.ysum_milli as i64);
                    self.button_held = false;
                    self.xsum_milli = 0;
                    self.ysum_milli = 0;
                    let tail = if cancelled {
                        SinkAction::Release
                    } else {
                        SinkAction::ReleaseAfter { delay_ms: RELEASE_DELAY_MS }
                    };
                    vec![SinkAction::MoveRelative { dx: rx as i32, dy: ry as i32 }, tail]
                }
            },
            GestureAction::HoldBegin => Vec::new(),
            GestureAction::HoldEnd { cancelled } => {
                if cancelled {
                    Vec::new()
                } else {
                    self.button_held = false;
                    vec![SinkAction::Release]
                }
            },
            GestureAction::OtherGesture => {
                self.button_held = false;
                vec![SinkAction::Release]
            },
        }
    }
}

/// A swipe event with the wrong finger count always releases the button and
/// never emits motion, whatever the prior drag state.
pub proof fn lemma_wrong_finger_count_releases(m: GestureMachine, a: GestureAction)
    requires
        rejects_fingers(a),
    ensures
        !gesture_step(m, a).0.button_held,
        gesture_step(m, a).1 == seq![SinkAction::Release],
        forall|k: int|
            0 <= k < gesture_step(m, a).1.len() ==> !(#[trigger] gesture_step(m, a).1[k]
                is MoveRelative),
{
}

/// An accepted swipe update that drives the accumulator past the emission
/// threshold emits exactly one relative move and leaves the accumulator at
/// exactly (0, 0); below the threshold nothing is emitted and the sums are
/// kept.
pub proof fn lemma_update_threshold(m: GestureMachine, finger_count: i32, dx_milli: i32, dy_milli: i32)
    requires
        finger_count == REQUIRED_FINGERS,
    ensures
        ({
            let a = GestureAction::SwipeUpdate { finger_count, dx_milli, dy_milli };
            let nx = m.xsum_milli + SWIPE_ACCEL * dx_milli;
            let ny = m.ysum_milli + SWIPE_ACCEL * dy_milli;
            let crossed = nx > EMIT_THRESHOLD_MILLI || nx < -EMIT_THRESHOLD_MILLI || ny
                > EMIT_THRESHOLD_MILLI || ny < -EMIT_THRESHOLD_MILLI;
            &&& crossed ==> gesture_step(m, a).1 == seq![
                SinkAction::MoveRelative { dx: round_milli(nx) as i32, dy: round_milli(ny) as i32 },
            ] && gesture_step(m, a).0.xsum_milli == 0 && gesture_step(m, a).0.ysum_milli == 0
            &&& !crossed ==> gesture_step(m, a).1 == Seq::<SinkAction>::empty() && gesture_step(
                m,
                a,
            ).0.xsum_milli == nx && gesture_step(m, a).0.ysum_milli == ny
        }),
{
}

/// The button is pressed only by a swipe begin with the required finger
/// count, and that step leaves the button held: the machine never
/// double-presses within an accepted gesture episode.
pub proof fn lemma_press_only_on_swipe_begin(m: GestureMachine, a: GestureAction)
    ensures
        gesture_step(m, a).1.contains(SinkAction::Press) ==> a == (GestureAction::SwipeBegin {
            finger_count: REQUIRED_FINGERS,
        }) && gesture_step(m, a).0.button_held,
{
    if gesture_step(m, a).1.contains(SinkAction::Press) {
        let out = gesture_step(m, a).1;
        let k = choose|k: int| 0 <= k < out.len() && out[k] == SinkAction::Press;
        assert(a is SwipeBegin);
    }
}

/// A hold that ends uncancelled releases the button exactly once; a
/// cancelled hold releases nothing and changes nothing.
pub proof fn lemma_hold_release(m: GestureMachine, cancelled: bool)
    ensures
        gesture_step(m, GestureAction::HoldBegin) == (m, Seq::<SinkAction>::empty()),
        !cancelled ==> gesture_step(m, GestureAction::HoldEnd { cancelled }).1 == seq![
            SinkAction::Release,
        ] && !gesture_step(m, GestureAction::HoldEnd { cancelled }).0.button_held,
        cancelled ==> gesture_step(m, GestureAction::HoldEnd { cancelled }) == (
            m,
            Seq::<SinkAction>::empty(),
        ),
{
}

} // verus!
