//! What a translated event asks the input backend to do.
use vstd::prelude::*;

use crate::keys::KeySymbol;

verus! {

/// One of the three pointer buttons.
#[derive(Clone, Copy, Debug, PartialEq, Eq, Structural)]
pub enum MouseButton {
    Left,
    Middle,
    Right,
}

/// Whether a button or key goes down or up.
#[derive(Clone, Copy, Debug, PartialEq, Eq, Structural)]
pub enum Direction {
    Press,
    Release,
}

/// The axis a scroll moves along.
#[derive(Clone, Copy, Debug, PartialEq, Eq, Structural)]
pub enum Axis {
    Horizontal,
    Vertical,
}

/// A validated instruction for the input backend.
#[derive(Clone, Copy, Debug, PartialEq, Eq, Structural)]
pub enum InputAction {
    /// Moves the pointer to an absolute position.
    MouseMove { x: i32, y: i32 },
    /// Presses or releases a pointer button.
    MouseButton { button: MouseButton, direction: Direction },
    /// Scrolls by `delta` along one axis.
    Scroll { axis: Axis, delta: i32 },
    /// Presses or releases a key.
    Key { key: KeySymbol, direction: Direction },
}

/// Why an event could not be turned into actions.
#[derive(Clone, Copy, Debug, PartialEq, Eq, Structural)]
pub enum DecodeError {
    /// A field that the event's kind requires is absent or of another type.
    MissingField,
    /// The `key` field is the empty string.
    EmptyKey,
    /// The `key` field is no table name and holds more than one character.
    MultiCharacterKey,
    /// The `event` field names no kind of event known here.
    UnrecognizedEvent,
}

impl DecodeError {
    /// A short description, for logs.
    pub fn describe(&self) -> (r: &'static str)
        ensures
            r@ == match self {
                DecodeError::MissingField => "a required field is missing"@,
                DecodeError::EmptyKey => "empty `key`"@,
                DecodeError::MultiCharacterKey => "multi-character `key`"@,
                DecodeError::UnrecognizedEvent => "unhandled navigation event"@,
            },
    {
        match self {
            DecodeError::MissingField => "a required field is missing",
            DecodeError::EmptyKey => "empty `key`",
            DecodeError::MultiCharacterKey => "multi-character `key`",
            DecodeError::UnrecognizedEvent => "unhandled navigation event",
        }
    }
}

} // verus!
