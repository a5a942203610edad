use vstd::prelude::*;

verus! {

/// Bit of the shift key in a modifier set.
pub const SHIFT_BIT: u8 = 1;

/// Bit of the control key in a modifier set.
pub const CONTROL_BIT: u8 = 2;

/// Bit of the alt key in a modifier set.
pub const ALT_BIT: u8 = 4;

/// Bit of the super key in a modifier set.
pub const SUPER_BIT: u8 = 8;

/// Bit of the hyper key in a modifier set.
pub const HYPER_BIT: u8 = 16;

/// Bit of the meta key in a modifier set.
pub const META_BIT: u8 = 32;

/// The modifier keys held during a key press, one bit per key.
#[derive(Clone, Copy, Debug, PartialEq, Eq, Structural)]
pub struct KeyModifiers {
    pub bits: u8,
}

impl KeyModifiers {
    /// Whether every key of `other` is held in `self`.
    pub open spec fn holds(self, other: KeyModifiers) -> bool {
        self.bits & other.bits == other.bits
    }

    /// The empty modifier set.
    pub fn empty() -> (r: KeyModifiers)
        ensures
            r.bits == 0,
    {
        KeyModifiers { bits: 0 }
    }

    /// The set that holds the control key alone.
    pub fn control() -> (r: KeyModifiers)
        ensures
            r.bits == CONTROL_BIT,
    {
        KeyModifiers { bits: CONTROL_BIT }
    }

    /// Whether every key of `other` is held in `self`.
    pub fn contains(&self, other: KeyModifiers) -> (r: bool)
        ensures
            r == self.holds(other),
    {
        self.bits & other.bits == other.bits
    }
}

/// Which key was pressed.
#[derive(Clone, Copy, Debug, PartialEq, Eq, Structural)]
pub enum KeyCode {
    Backspace,
    Enter,
    Left,
    Right,
    Up,
    Down,
    Home,
    End,
    PageUp,
    PageDown,
    Tab,
    BackTab,
    Delete,
    Insert,
    F(u8),
    Char(char),
    Null,
    Esc,
    /// A lock, media or lone modifier key.
    Other,
}

/// Whether a key went down, repeated, or came up.
#[derive(Clone, Copy, Debug, PartialEq, Eq, Structural)]
pub enum KeyEventKind {
    Press,
    Repeat,
    Release,
}

/// One key event: the key, the modifiers held, and its kind.
#[derive(Clone, Copy, Debug, PartialEq, Eq, Structural)]
pub struct KeyPress {
    pub code: KeyCode,
    pub modifiers: KeyModifiers,
    pub kind: KeyEventKind,
}

impl KeyPress {
    /// A press of `code` with the modifiers `modifiers`.
    pub fn new(code: KeyCode, modifiers: KeyModifiers) -> (r: KeyPress)
        ensures
            r.code == code,
            r.modifiers == modifiers,
            r.kind == KeyEventKind::Press,
    {
        KeyPress { code, modifiers, kind: KeyEventKind::Press }
    }
}

/// One raw input event read from the terminal.
#[derive(Clone, Debug, PartialEq, Eq)]
pub enum RawEvent {
    FocusGained,
    FocusLost,
    Key(KeyPress),
    Mouse { column: u16, row: u16, modifiers: KeyModifiers },
    Paste(String),
    Resize(u16, u16),
}

} // verus!
