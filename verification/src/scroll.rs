//! The scroll navigation debouncer: a two-finger horizontal scroll episode
//! arms at most one pending back/forward combo, which is committed — or
//! discarded, depending on focus — only at the episode's settle frame.

use vstd::prelude::*;
use crate::actions::{NavCombo, SinkAction};
use crate::parser::ScrollSample;

verus! {

/// Horizontal magnitude (in milli-units) at which a scroll arms a combo.
pub const SCROLL_THRESHOLD_MILLI: i32 = 10_000;

/// Pending-combo state of the debouncer.
#[derive(Clone, Copy, PartialEq, Eq, Debug)]
pub struct ScrollDebouncer {
    pub pending: Option<NavCombo>,
}

/// One scroll frame: next pending state, and the combo whose commit is now
/// due (the settle frame of an episode with an armed combo).
pub open spec fn scroll_step(pending: Option<NavCombo>, s: ScrollSample) -> (
    Option<NavCombo>,
    Option<NavCombo>,
) {
    if s.vertical_milli == 0 && s.horizontal_milli == 0 && pending is Some {
        (Option::None, pending)
    } else if s.horizontal_milli >= SCROLL_THRESHOLD_MILLI && pending is None {
        (Option::Some(NavCombo::Back), Option::None)
    } else if s.horizontal_milli <= -SCROLL_THRESHOLD_MILLI && pending is None {
        (Option::Some(NavCombo::Forward), Option::None)
    } else {
        (pending, Option::None)
    }
}

/// The actions of a commit: the armed combo is sent only when a navigable
/// application holds focus; otherwise nothing is emitted.
pub open spec fn commit_step(combo: NavCombo, navigable: bool) -> Seq<SinkAction> {
    if navigable {
        seq![SinkAction::KeyCombo { combo }]
    } else {
        Seq::empty()
    }
}

impl ScrollDebouncer {
    /// The idle debouncer: nothing armed.
    pub fn new() -> (d: ScrollDebouncer)
        ensures
            d.pending is None,
    {
        ScrollDebouncer { pending: None }
    }

    /// Consume one scroll frame. A returned combo is due for commit: the
    /// caller must query focus and hand the answer to [`commit_actions`].
    pub fn on_sample(&mut self, s: ScrollSample) -> (commit: Option<NavCombo>)
        ensures
            (final(self).pending, commit) == scroll_step(old(self).pending, s),
    {
        let v = s.vertical_milli;
        let h = s.horizontal_milli;
        if v == 0 && h == 0 && self.pending.is_some() {
            let due = self.pending;
            self.pending = None;
            due
        } else if h >= SCROLL_THRESHOLD_MILLI && self.pending.is_none() {
            self.pending = Some(NavCombo::Back);
            None
        } else if h <= -SCROLL_THRESHOLD_MILLI && self.pending.is_none() {
            self.pending = Some(NavCombo::Forward);
            None
        } else {
            None
        }
    }

    /// Abandon the episode: any armed combo is dropped without emitting.
    pub fn clear(&mut self)
        ensures
            final(self).pending is None,
    {
        self.pending = None;
    }
}

/// Resolve a due commit against the focus answer.
pub fn commit_actions(combo: NavCombo, navigable: bool) -> (out: Vec<SinkAction>)
    ensures
        out@ == commit_step(combo, navigable),
{
    if navigable {
        vec![SinkAction::KeyCombo { combo }]
    } else {
        Vec::new()
    }
}

/// While an episode's combo is armed, further motion frames neither re-arm
/// nor commit: one episode yields at most one commit, decided at the settle
/// frame.
pub proof fn lemma_episode_debounce(pending: Option<NavCombo>, s: ScrollSample)
    requires
        pending is Some,
        !(s.vertical_milli == 0 && s.horizontal_milli == 0),
    ensures
        scroll_step(pending, s) == (pending, Option::<NavCombo>::None),
{
}

/// The settle frame clears the armed combo and makes it due exactly once,
/// and the commit emits the combo if and only if a navigable application has
/// focus.
pub proof fn lemma_commit_once(pending: Option<NavCombo>, s: ScrollSample, navigable: bool)
    requires
        pending is Some,
        s.vertical_milli == 0 && s.horizontal_milli == 0,
    ensures
        scroll_step(pending, s) == (Option::<NavCombo>::None, pending),
        commit_step(pending->0, navigable) == (if navigable {
            seq![SinkAction::KeyCombo { combo: pending->0 }]
        } else {
            Seq::<SinkAction>::empty()
        }),
{
}

} // verus!
