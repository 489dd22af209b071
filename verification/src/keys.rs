//! Key presses as plain values.
//!
//! A key is a logical code together with a set of modifier flags. Two keys
//! are the same key exactly when both parts agree.

use vstd::prelude::*;

use crate::table::TableKey;

verus! {

/// Flag of the shift key in [`KeyModifiers::bits`].
pub const SHIFT: u8 = 0b0000_0001;

/// Flag of the control key in [`KeyModifiers::bits`].
pub const CONTROL: u8 = 0b0000_0010;

/// Flag of the alt key in [`KeyModifiers::bits`].
pub const ALT: u8 = 0b0000_0100;

/// The logical code of a key.
#[derive(Clone, Copy, Debug, PartialEq, Eq, Hash, Structural)]
pub enum KeyCode {
    Backspace,
    Enter,
    Left,
    Right,
    Up,
    Down,
    Home,
    End,
    PageUp,
    PageDown,
    Tab,
    BackTab,
    Delete,
    Insert,
    /// A function key, by its number.
    F(u8),
    /// A character key.
    Char(char),
    /// A key that has no code of its own.
    Null,
    Esc,
}

/// The modifiers held down with a key, one bit each.
#[derive(Clone, Copy, Debug, PartialEq, Eq, Hash, Structural)]
pub struct KeyModifiers {
    pub bits: u8,
}

impl KeyModifiers {
    /// No modifier.
    pub fn none() -> (m: KeyModifiers)
        ensures
            m.bits == 0,
    {
        KeyModifiers { bits: 0 }
    }

    /// The shift key alone.
    pub fn shift() -> (m: KeyModifiers)
        ensures
            m.bits == SHIFT,
    {
        KeyModifiers { bits: SHIFT }
    }

    /// The control key alone.
    pub fn control() -> (m: KeyModifiers)
        ensures
            m.bits == CONTROL,
    {
        KeyModifiers { bits: CONTROL }
    }

    /// The alt key alone.
    pub fn alt() -> (m: KeyModifiers)
        ensures
            m.bits == ALT,
    {
        KeyModifiers { bits: ALT }
    }
}

/// One key press.
#[derive(Clone, Copy, Debug, PartialEq, Eq, Hash, Structural)]
pub struct KeyEvent {
    pub code: KeyCode,
    pub modifiers: KeyModifiers,
}

/// The key `code` pressed with no modifier.
pub open spec fn plain(code: KeyCode) -> KeyEvent {
    KeyEvent { code, modifiers: KeyModifiers { bits: 0 } }
}

/// The key `code` pressed with the control key.
pub open spec fn ctrl(code: KeyCode) -> KeyEvent {
    KeyEvent { code, modifiers: KeyModifiers { bits: CONTROL } }
}

impl KeyEvent {
    pub fn new(code: KeyCode, modifiers: KeyModifiers) -> (key: KeyEvent)
        ensures
            key == (KeyEvent { code, modifiers }),
    {
        KeyEvent { code, modifiers }
    }
}

impl TableKey for KeyEvent {
    fn same(&self, other: &KeyEvent) -> (b: bool) {
        *self == *other
    }
}

/// What the terminal reports: a key press, or anything else (a resize, the
/// mouse, a change of focus).
#[derive(Clone, Copy, Debug, PartialEq, Eq, Structural)]
pub enum Event {
    Key(KeyEvent),
    Other,
}

} // verus!
