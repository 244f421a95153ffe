//! Key and mouse events as plain values.

use vstd::prelude::*;

verus! {

/// A key.
#[derive(Debug, Clone, Copy, PartialEq, Eq, Structural)]
pub enum KeyCode {
    Char(char),
    Esc,
    Enter,
    Tab,
    BackTab,
    Backspace,
    Delete,
    Insert,
    Up,
    Down,
    Left,
    Right,
    Home,
    End,
    PageUp,
    PageDown,
    F(u8),
    /// Any key the interface does not use.
    Other,
}

/// The modifier keys held with a key.
#[derive(Debug, Clone, Copy, PartialEq, Eq, Structural)]
pub struct KeyModifiers {
    pub shift: bool,
    pub control: bool,
    pub alt: bool,
    /// Super, hyper or meta.
    pub other: bool,
}

impl KeyModifiers {
    /// No modifier held.
    pub open spec fn is_none(self) -> bool {
        !self.shift && !self.control && !self.alt && !self.other
    }

    /// Only Control held.
    pub open spec fn is_control(self) -> bool {
        !self.shift && self.control && !self.alt && !self.other
    }

    /// Only Shift held.
    pub open spec fn is_shift(self) -> bool {
        self.shift && !self.control && !self.alt && !self.other
    }

    /// No modifier.
    pub fn none() -> (m: Self)
        ensures
            m.is_none(),
    {
        KeyModifiers { shift: false, control: false, alt: false, other: false }
    }

    /// Control alone.
    pub fn control() -> (m: Self)
        ensures
            m.is_control(),
    {
        KeyModifiers { shift: false, control: true, alt: false, other: false }
    }

    /// Shift alone.
    pub fn shift() -> (m: Self)
        ensures
            m.is_shift(),
    {
        KeyModifiers { shift: true, control: false, alt: false, other: false }
    }
}

/// A key press.
#[derive(Debug, Clone, Copy, PartialEq, Eq, Structural)]
pub struct KeyEvent {
    pub code: KeyCode,
    pub modifiers: KeyModifiers,
}

impl KeyEvent {
    /// A press of `code` with `modifiers`.
    pub fn new(code: KeyCode, modifiers: KeyModifiers) -> (k: Self)
        ensures
            k.code == code,
            k.modifiers == modifiers,
    {
        KeyEvent { code, modifiers }
    }

    /// `code` with no modifier.
    pub open spec fn plain(self, code: KeyCode) -> bool {
        self.modifiers.is_none() && self.code == code
    }

    /// `code` with Control alone.
    pub open spec fn ctrl(self, code: KeyCode) -> bool {
        self.modifiers.is_control() && self.code == code
    }

    /// `code` with Shift alone.
    pub open spec fn shifted(self, code: KeyCode) -> bool {
        self.modifiers.is_shift() && self.code == code
    }
}

/// What the mouse did.
#[derive(Debug, Clone, Copy, PartialEq, Eq, Structural)]
pub enum MouseEventKind {
    ScrollUp,
    ScrollDown,
    Moved,
    LeftDown,
    RightDown,
    Other,
}

/// A mouse event at a cell.
#[derive(Debug, Clone, Copy, PartialEq, Eq, Structural)]
pub struct MouseEvent {
    pub kind: MouseEventKind,
    pub column: u16,
    pub row: u16,
}

} // verus!
