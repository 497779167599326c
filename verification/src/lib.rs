//! A verified interpreter for touchpad gesture event streams.
//!
//! The library turns lines of device-debug event text into synthesized
//! pointer and keyboard actions: three-finger swipes become a held-button
//! drag, and two-finger horizontal scrolls become browser back/forward key
//! combos, gated on whether the focused application is navigable.
//!
//! All numeric event fields are carried in fixed-point thousandths of a
//! device unit ("milli-units"), so the accumulation and threshold logic is
//! exact integer arithmetic.
//!
//! Reading the event stream, injecting the synthesized actions, and querying
//! the window manager are left to the surrounding process; the library only
//! decides, through [`interpreter::Interpreter`], what must happen next.

pub mod actions;
pub mod focus;
pub mod gesture;
pub mod interpreter;
pub mod numbers;
pub mod parser;
pub mod scroll;
pub mod text;
