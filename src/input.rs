use vstd::prelude::*;

use crate::geometry::Point;

verus! {

/// The identity of a key, as far as trigger decisions need it.
#[derive(Clone, Copy, Debug, PartialEq, Eq, Structural)]
pub enum Key {
    Space,
    Enter,
    Escape,
    Character(char),
    Other,
}

/// A mouse button.
#[derive(Clone, Copy, Debug, PartialEq, Eq, Structural)]
pub enum MouseButton {
    Left,
    Right,
    Middle,
    Other,
}

/// An event that the platform delivers to the host, with the payload that a
/// trigger decision needs.
#[derive(Clone, Copy, Debug, PartialEq, Eq, Structural)]
pub enum InputEvent {
    WindowClosed,
    Resized { width: u32, height: u32 },
    KeyPressed { key: Key },
    KeyReleased { key: Key },
    MouseButtonPressed { button: MouseButton, position: Point },
    Resumed,
    Suspended,
}

} // verus!
