//! A key press as the interface sees it.
use vstd::prelude::*;

verus! {

/// The key that was pressed.
#[derive(Debug, Clone, Copy, PartialEq, Eq, Structural)]
pub enum KeyCode {
    Char(char),
    Enter,
    Esc,
    Tab,
    BackTab,
    Backspace,
    Delete,
    Up,
    Down,
    Left,
    Right,
    /// Any key the interface does not react to.
    Other,
}

/// A key press with the modifiers the interface looks at.
#[derive(Debug, Clone, Copy, PartialEq, Eq, Structural)]
pub struct KeyInput {
    pub code: KeyCode,
    /// Control was held.
    pub ctrl: bool,
    /// The Super (Command) key was held.
    pub super_key: bool,
}

impl KeyInput {
    /// A key pressed without modifiers.
    pub fn plain(code: KeyCode) -> (r: KeyInput)
        ensures
            r == (KeyInput { code, ctrl: false, super_key: false }),
    {
        KeyInput { code, ctrl: false, super_key: false }
    }
}

} // verus!
