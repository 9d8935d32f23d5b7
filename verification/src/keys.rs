//! Keys as they are pressed.
use vstd::prelude::*;

verus! {

/// Which key was pressed.
#[derive(Clone, Copy, Debug, PartialEq, Eq, Structural)]
pub enum KeyCode {
    Esc,
    Enter,
    Tab,
    Backspace,
    Up,
    Down,
    PageUp,
    PageDown,
    Char(char),
    Other,
}

/// Which keys were held meanwhile. `other` stands for all but Shift and Ctrl.
#[derive(Clone, Copy, Debug, PartialEq, Eq, Structural)]
pub struct KeyModifiers {
    pub shift: bool,
    pub control: bool,
    pub other: bool,
}

/// A key press.
#[derive(Clone, Copy, Debug, PartialEq, Eq, Structural)]
pub struct KeyEvent {
    pub code: KeyCode,
    pub modifiers: KeyModifiers,
}

/// Whether no other key was held.
pub open spec fn unmodified(key: KeyEvent) -> bool {
    !key.modifiers.shift && !key.modifiers.control && !key.modifiers.other
}

/// The character that a key types: with Shift at most.
pub open spec fn typed(key: KeyEvent) -> Option<char> {
    match key.code {
        KeyCode::Char(c) => if !key.modifiers.control && !key.modifiers.other {
            Some(c)
        } else {
            None
        },
        _ => None,
    }
}

/// The position that a digit key names, counted from the digit one.
pub open spec fn digit_position(key: KeyEvent) -> Option<int> {
    match key.code {
        KeyCode::Char(c) => if unmodified(key) && '1' <= c && c <= '9' {
            Some(c as u32 - '1' as u32)
        } else {
            None
        },
        _ => None,
    }
}

impl KeyEvent {
    /// A key press.
    pub fn new(code: KeyCode, modifiers: KeyModifiers) -> (r: KeyEvent)
        ensures
            r == (KeyEvent { code, modifiers }),
    {
        KeyEvent { code, modifiers }
    }

    /// Whether no other key was held.
    pub fn is_unmodified(&self) -> (r: bool)
        ensures
            r == unmodified(*self),
    {
        !self.modifiers.shift && !self.modifiers.control && !self.modifiers.other
    }

    /// The character that the key types.
    pub fn typed_char(&self) -> (r: Option<char>)
        ensures
            r == typed(*self),
    {
        match self.code {
            KeyCode::Char(c) => if !self.modifiers.control && !self.modifiers.other {
                Some(c)
            } else {
                None
            },
            _ => None,
        }
    }

    /// The position that a digit key names.
    pub fn position(&self) -> (r: Option<usize>)
        ensures
            match digit_position(*self) {
                Some(i) => r == Some(i as usize),
                None => r is None,
            },
    {
        match self.code {
            KeyCode::Char(c) => if self.is_unmodified() && '1' <= c && c <= '9' {
                Some((c as u32 - 49) as usize)
            } else {
                None
            },
            _ => None,
        }
    }
}

impl KeyModifiers {
    /// No key held.
    pub fn none() -> (r: KeyModifiers)
        ensures
            r == (KeyModifiers { shift: false, control: false, other: false }),
    {
        KeyModifiers { shift: false, control: false, other: false }
    }

    /// Ctrl held.
    pub fn control() -> (r: KeyModifiers)
        ensures
            r == (KeyModifiers { shift: false, control: true, other: false }),
    {
        KeyModifiers { shift: false, control: true, other: false }
    }
}

} // verus!
