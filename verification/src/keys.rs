//! The keyboard keys the bindings and encoders read. A window toolkit key is
//! converted into a [`Key`] at the edge of the program.
use vstd::prelude::*;

verus! {

/// Named (non-character) keys. Keys that no binding or encoder reads are
/// reported as `Other`.
#[derive(Clone, Copy, Debug, PartialEq, Eq, Hash, Structural)]
pub enum NamedKey {
    Enter,
    Escape,
    Tab,
    Space,
    Backspace,
    Delete,
    PageUp,
    PageDown,
    Home,
    End,
    ArrowUp,
    ArrowDown,
    ArrowLeft,
    ArrowRight,
    F1,
    F2,
    F3,
    F4,
    F5,
    F6,
    F7,
    F8,
    F9,
    F10,
    F11,
    F12,
    Other,
}

/// A logical key as the keyboard layout reports it.
#[derive(Clone, Debug)]
pub enum Key {
    /// Text the key produces.
    Character(String),
    /// A named key.
    Named(NamedKey),
    /// A dead or unidentified key.
    Unidentified,
}

} // verus!
