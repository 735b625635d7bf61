use vstd::prelude::*;

verus! {

/// A pointer button.
#[derive(Clone, Copy, Debug, PartialEq, Eq, Structural)]
pub enum MouseButton {
    Left,
    Right,
    Middle,
    Back,
    Forward,
    Other(u16),
}

/// A key press, release or committed text.
#[derive(Clone, Debug, PartialEq, Eq)]
pub enum KeyboardEvent {
    Pressed { key: Key },
    Released { key: Key },
    TextInput(String),
}

/// A logical key.
#[derive(Clone, Debug, PartialEq, Eq)]
pub enum Key {
    Character(String),
    Named(String),
    Dead(Option<char>),
    Unidentified(String),
}

} // verus!
