//! The key inputs the core's command handlers distinguish. The input
//! source delivers one of these per key press; everything else arrives as
//! `Other` and bubbles up unhandled.
use vstd::prelude::*;

verus! {

/// The key pressed.
#[derive(Clone, Copy, Debug, PartialEq, Eq, Structural)]
pub enum KeyCode {
    Enter,
    Esc,
    Backspace,
    Left,
    Right,
    Up,
    Down,
    Tab,
    Char(char),
    Other,
}

/// One key press. `shift` and `ctrl` are set when that modifier, and that
/// modifier alone, is held.
#[derive(Clone, Copy, Debug, PartialEq, Eq, Structural)]
pub struct KeyInput {
    pub code: KeyCode,
    pub shift: bool,
    pub ctrl: bool,
}

} // verus!
