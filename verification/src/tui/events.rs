//! Key events of the terminal interface.

use vstd::prelude::*;

verus! {

/// A key of the terminal.
#[derive(Debug, Clone, Copy, PartialEq, Eq, Structural)]
pub enum KeyCode {
    Char(char),
    Up,
    Down,
    Left,
    Right,
    PageUp,
    PageDown,
    Home,
    End,
    Enter,
    Esc,
    Backspace,
    Tab,
    BackTab,
    Other,
}

/// The modifier keys held with a key.
#[derive(Debug, Clone, Copy, PartialEq, Eq, Structural)]
pub struct KeyModifiers {
    pub control: bool,
    pub shift: bool,
    pub alt: bool,
}

/// A key press in the terminal.
#[derive(Debug, Clone, Copy, PartialEq, Eq, Structural)]
pub struct KeyEvent {
    pub code: KeyCode,
    pub modifiers: KeyModifiers,
}

impl KeyModifiers {
    /// Whether exactly the control key is held.
    pub open spec fn spec_is_control_only(self) -> bool {
        self.control && !self.shift && !self.alt
    }

    /// Whether exactly the control key is held.
    pub fn is_control_only(&self) -> (r: bool)
        ensures
            r == self.spec_is_control_only(),
    {
        self.control && !self.shift && !self.alt
    }
}

} // verus!
