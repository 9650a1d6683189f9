//! Key presses, as the editor sees them.

use vstd::prelude::*;

verus! {

/// Key presses accepted by the editor.
#[derive(Debug, Copy, Clone, Eq, PartialEq, Hash, Structural)]
pub enum Key {
    Enter,
    Tab,
    Backspace,
    Esc,
    Left,
    Right,
    Up,
    Down,
    Insert,
    Delete,
    Home,
    End,
    PageUp,
    PageDown,
    Char(char),
    Ctrl(char),
    Unknown,
}

} // verus!
