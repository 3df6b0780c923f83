//! The key-press model the state machine consumes. The terminal layer
//! translates its own key representation into this one and filters out
//! everything but presses.

use vstd::prelude::*;

verus! {

/// The keys the state machine distinguishes; anything else arrives as
/// `Other` and is ignored by every handler.
#[derive(Clone, Copy, Debug, PartialEq, Eq, Structural)]
pub enum KeyCode {
    Char(char),
    Esc,
    Enter,
    Backspace,
    Tab,
    BackTab,
    Up,
    Down,
    Left,
    Right,
    Other,
}

/// One key press: the key itself and whether Control was held.
#[derive(Clone, Copy, Debug, PartialEq, Eq, Structural)]
pub struct KeyEvent {
    pub code: KeyCode,
    pub ctrl: bool,
}

} // verus!
