//! What the selector reacts to: ticks of its clock and keys.

use vstd::prelude::*;

verus! {

/// A key, as far as the selector tells keys apart.
#[derive(Debug, Clone, Copy, PartialEq, Eq)]
pub enum KeyCode {
    Esc,
    Enter,
    Backspace,
    Delete,
    Up,
    Down,
    Left,
    Right,
    /// A key that stands for a character.
    Char(char),
    /// Any other key.
    Other,
}

/// The modifier keys held while a key was pressed.
#[derive(Debug, Clone, Copy, PartialEq, Eq)]
pub struct KeyModifiers {
    pub control: bool,
    pub shift: bool,
    pub alt: bool,
}

impl KeyModifiers {
    /// No modifier held.
    pub fn none() -> (modifiers: Self)
        ensures
            !modifiers.any(),
    {
        KeyModifiers { control: false, shift: false, alt: false }
    }

    /// Whether at least one modifier was held.
    pub open spec fn any(self) -> bool {
        self.control || self.shift || self.alt
    }
}

/// One key press.
#[derive(Debug, Clone, Copy, PartialEq, Eq)]
pub struct KeyEvent {
    pub code: KeyCode,
    pub modifiers: KeyModifiers,
}

impl KeyEvent {
    /// `code` pressed with no modifier held.
    pub fn plain(code: KeyCode) -> (key: Self)
        ensures
            key.code == code,
            !key.modifiers.any(),
    {
        KeyEvent { code, modifiers: KeyModifiers::none() }
    }

    /// `code` pressed with the given modifiers held.
    pub fn new(code: KeyCode, modifiers: KeyModifiers) -> (key: Self)
        ensures
            key.code == code,
            key.modifiers == modifiers,
    {
        KeyEvent { code, modifiers }
    }
}

/// An event delivered to the selector. A tick says that time has passed,
/// not that anything changed.
#[derive(Debug, Clone, Copy, PartialEq, Eq)]
pub enum Event {
    Tick,
    Key(KeyEvent),
}

} // verus!
