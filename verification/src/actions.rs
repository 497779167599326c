//! The actions that the interpreter asks the surrounding process to
//! perform: button presses and releases on the single logical drag button,
//! relative pointer motion, and browser navigation key combos.

use vstd::prelude::*;
use vstd::string::StringExecFns;

verus! {

/// A pending browser navigation direction.
#[derive(Clone, Copy, PartialEq, Eq, Structural, Debug)]
pub enum NavCombo {
    Back,
    Forward,
}

/// One synthesized pointer or keyboard action, to be performed in order.
#[derive(Clone, Copy, PartialEq, Eq, Structural, Debug)]
pub enum SinkAction {
    /// Press the drag button.
    Press,
    /// Release the drag button immediately.
    Release,
    /// Schedule a release of the drag button without blocking.
    ReleaseAfter { delay_ms: u64 },
    /// Move the pointer by whole pixels.
    MoveRelative { dx: i32, dy: i32 },
    /// Send the key combo for a navigation direction.
    KeyCombo { combo: NavCombo },
}

impl NavCombo {
    /// The key-combo text understood by the input-injection tool.
    pub fn text(&self) -> (r: String)
        ensures
            *self == NavCombo::Back ==> r@ == "Alt+Left"@,
            *self == NavCombo::Forward ==> r@ == "Alt+Right"@,
    {
        match self {
            NavCombo::Back => String::from_str("Alt+Left"),
            NavCombo::Forward => String::from_str("Alt+Right"),
        }
    }
}

} // verus!
