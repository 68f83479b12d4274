//! Terminal events as plain values: what the state machine reads of a key
//! press.

use vstd::prelude::*;

verus! {

/// The key of a key event.
#[derive(Clone, Copy, Debug, PartialEq, Eq, Structural)]
pub enum KeyCode {
    Char(char),
    Enter,
    Esc,
    Backspace,
    Up,
    Down,
    Left,
    Right,
    /// Any key that the state machine gives no meaning.
    Other,
}

/// The modifier keys held with a key.
#[derive(Clone, Copy, Debug, PartialEq, Eq, Structural)]
pub struct KeyModifiers {
    pub shift: bool,
    pub control: bool,
    pub alt: bool,
    /// Super, Hyper or Meta.
    pub other: bool,
}

impl KeyModifiers {
    /// Whether the control key is held and no other modifier.
    pub open spec fn is_control_only(self) -> bool {
        self.control && !self.shift && !self.alt && !self.other
    }

    /// Tests for the control key alone.
    pub fn control_only(&self) -> (b: bool)
        ensures
            b == self.is_control_only(),
    {
        self.control && !self.shift && !self.alt && !self.other
    }

    /// No modifier.
    pub fn none() -> (m: KeyModifiers)
        ensures
            m == (KeyModifiers { shift: false, control: false, alt: false, other: false }),
    {
        KeyModifiers { shift: false, control: false, alt: false, other: false }
    }
}

/// What happened to the key.
#[derive(Clone, Copy, Debug, PartialEq, Eq, Structural)]
pub enum KeyEventKind {
    Press,
    Repeat,
    Release,
}

/// One key event.
#[derive(Clone, Copy, Debug, PartialEq, Eq, Structural)]
pub struct KeyEvent {
    pub code: KeyCode,
    pub modifiers: KeyModifiers,
    pub kind: KeyEventKind,
}

impl KeyEvent {
    /// The press of a key with no modifier.
    pub fn press(code: KeyCode) -> (key: KeyEvent)
        ensures
            key.code == code,
            key.kind == KeyEventKind::Press,
            key.modifiers == (KeyModifiers {
                shift: false,
                control: false,
                alt: false,
                other: false,
            }),
    {
        KeyEvent { code, modifiers: KeyModifiers::none(), kind: KeyEventKind::Press }
    }
}

/// One terminal event.
#[derive(Clone, Copy, Debug, PartialEq, Eq, Structural)]
pub enum Event {
    Key(KeyEvent),
    /// A mouse event, a resize, or anything else.
    Other,
}

} // verus!
