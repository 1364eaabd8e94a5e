//! The keys and modifiers of a key press, as far as the widgets tell them apart.

use vstd::prelude::*;

verus! {

/// The logical key of a key press.
#[derive(Debug, Clone, PartialEq, Eq)]
pub enum KeyInput {
    Enter,
    Backspace,
    ArrowLeft,
    ArrowRight,
    ArrowUp,
    ArrowDown,
    /// A key that types text, with the text that it types.
    Character(String),
    /// Any other key.
    Other,
}

/// The physical key of a key press, as far as the shortcuts need it.
#[derive(Debug, Clone, Copy, PartialEq, Eq, Structural)]
pub enum KeyCode {
    KeyS,
    Other,
}

/// The modifier keys that are held during a key press.
#[derive(Debug, Clone, Copy, PartialEq, Eq, Structural)]
pub struct Modifiers {
    pub shift: bool,
    pub control: bool,
    pub alt: bool,
    pub meta: bool,
}

impl Modifiers {
    /// No modifier key is held.
    pub fn empty() -> (modifiers: Modifiers)
        ensures
            !modifiers.shift && !modifiers.control && !modifiers.alt && !modifiers.meta,
    {
        Modifiers { shift: false, control: false, alt: false, meta: false }
    }
}

/// Tells whether releasing the key `code` with `modifiers` held is the save shortcut Ctrl+S.
pub fn is_save_shortcut(code: KeyCode, modifiers: Modifiers) -> (is_save: bool)
    ensures
        is_save == (code == KeyCode::KeyS && modifiers.control),
{
    match code {
        KeyCode::KeyS => modifiers.control,
        KeyCode::Other => false,
    }
}

} // verus!
