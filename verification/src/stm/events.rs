//! The closed set of inputs the navigation engine accepts: a key press, a
//! diagnostic message, or a reset request. Every event is dispatched exactly
//! once per input; the engine never reads the terminal itself.

use vstd::prelude::*;

verus! {

/// The abstract key codes the dashboard consumes. Any other key the terminal
/// reports arrives as `Other` and is treated as unrecognized.
#[derive(Debug, Clone, Copy, PartialEq, Eq, Structural)]
pub enum KeyCode {
    Esc,
    Up,
    Down,
    Left,
    Right,
    Enter,
    Char(char),
    Other,
}

/// One input to the state machine.
#[derive(Debug, Clone, PartialEq)]
pub enum Event {
    Reset,
    Key { key_code: KeyCode },
    Debug { message: String },
}

} // verus!
