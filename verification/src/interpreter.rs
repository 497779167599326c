//! The dispatch loop's brain: one raw line in, the actions to perform out.
//! Gesture lines feed the gesture machine and abandon any scroll episode;
//! scroll lines feed the debouncer; anything else resets both, so unrelated
//! device activity can never leave the drag button stuck down.

use vstd::prelude::*;
use crate::actions::{NavCombo, SinkAction};
use crate::gesture::{gesture_step, GestureMachine};
use crate::parser::{parse_record, record_of, GestureAction, Record};
use crate::scroll::{scroll_step, ScrollDebouncer};
use crate::text::chars_of;

verus! {

/// All interpreter state: the drag machine and the scroll debouncer.
#[derive(Clone, Copy, PartialEq, Eq, Debug)]
pub struct Interpreter {
    pub gesture: GestureMachine,
    pub scroll: ScrollDebouncer,
}

/// What one line asks the surrounding process to do: perform `actions` in
/// order; then, if a combo's commit is due, query focus and resolve it with
/// [`crate::scroll::commit_actions`].
pub struct StepOutput {
    pub actions: Vec<SinkAction>,
    pub focus_query: Option<NavCombo>,
}

/// The dispatch table: next state, actions, and due commit for one record.
pub open spec fn interp_step(st: Interpreter, r: Record) -> (Interpreter, Seq<SinkAction>, Option<
    NavCombo,
>) {
    match r {
        Record::Gesture { action } => {
            let g = gesture_step(st.gesture, action);
            (
                Interpreter { gesture: g.0, scroll: ScrollDebouncer { pending: Option::None } },
                g.1,
                Option::None,
            )
        },
        Record::Scroll { sample } => match sample {
            Option::Some(s) => {
                let p = scroll_step(st.scroll.pending, s);
                (
                    Interpreter { gesture: st.gesture, scroll: ScrollDebouncer { pending: p.0 } },
                    Seq::empty(),
                    p.1,
                )
            },
            Option::None => (st, Seq::empty(), Option::None),
        },
        Record::Noise => (
            Interpreter {
                gesture: GestureMachine { button_held: false, ..st.gesture },
                scroll: ScrollDebouncer { pending: Option::None },
            },
            seq![SinkAction::Release],
            Option::None,
        ),
    }
}

impl Interpreter {
    pub open spec fn wf(self) -> bool {
        self.gesture.wf()
    }

    /// The initial interpreter: idle drag machine, nothing armed.
    pub fn new() -> (st: Interpreter)
        ensures
            st.gesture == (GestureMachine { button_held: false, xsum_milli: 0, ysum_milli: 0 }),
            st.scroll.pending is None,
            st.wf(),
    {
        Interpreter { gesture: GestureMachine::new(), scroll: ScrollDebouncer::new() }
    }

    /// Dispatch one classified record.
    pub fn on_record(&mut self, r: Record) -> (out: StepOutput)
        requires
            old(self).wf(),
        ensures
            final(self).wf(),
            (*final(self), out.actions@, out.focus_query) == interp_step(*old(self), r),
    {
        match r {
            Record::Gesture { action } => {
                self.scroll.clear();
                let actions = self.gesture.on_gesture(action);
                StepOutput { actions, focus_query: None }
            },
            Record::Scroll { sample } => match sample {
                Some(s) => {
                    let due = self.scroll.on_sample(s);
                    StepOutput { actions: Vec::new(), focus_query: due }
                },
                None => StepOutput { actions: Vec::new(), focus_query: None },
            },
            Record::Noise => {
                self.gesture.button_held = false;
                self.scroll.clear();
                StepOutput { actions: vec![SinkAction::Release], focus_query: None }
            },
        }
    }

    /// Parse and dispatch one raw line of event text.
    pub fn on_line(&mut self, line: &str) -> (out: StepOutput)
        requires
            old(self).wf(),
        ensures
            final(self).wf(),
            (*final(self), out.actions@, out.focus_query) == interp_step(
                *old(self),
                record_of(line@),
            ),
    {
        let chars = chars_of(line);
        let r = parse_record(&chars);
        self.on_record(r)
    }
}

/// Any gesture-family record abandons a pending scroll combo without
/// emitting it: the step's actions never contain a key combo and no commit
/// becomes due.
pub proof fn lemma_gesture_clears_pending(st: Interpreter, action: GestureAction)
    ensures
        interp_step(st, Record::Gesture { action }).0.scroll.pending is None,
        interp_step(st, Record::Gesture { action }).2 is None,
        forall|k: int|
            0 <= k < interp_step(st, Record::Gesture { action }).1.len() ==> !(
            #[trigger] interp_step(st, Record::Gesture { action }).1[k] is KeyCombo),
{
}

/// A noise line releases the drag button (idempotently) and clears any
/// pending scroll combo.
pub proof fn lemma_noise_resets(st: Interpreter)
    ensures
        !interp_step(st, Record::Noise).0.gesture.button_held,
        interp_step(st, Record::Noise).0.scroll.pending is None,
        interp_step(st, Record::Noise).1 == seq![SinkAction::Release],
        interp_step(st, Record::Noise).2 is None,
{
}

} // verus!
