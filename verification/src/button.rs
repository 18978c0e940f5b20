//! Mouse buttons as the bar protocol numbers them.

use vstd::prelude::*;

verus! {

/// What was pressed or scrolled to produce a click event.
#[derive(Debug, Copy, Clone, PartialEq, Eq, Structural)]
pub enum MouseButton {
    Left,
    Middle,
    Right,
    WheelUp,
    WheelDown,
    /// Thumb button that usually navigates forward.
    Forward,
    /// Thumb button that usually navigates back.
    Back,
    /// Any code the protocol assigns no meaning to.
    Unknown,
}

/// The button that a protocol code stands for. Every code has one: codes
/// without a meaning stand for `Unknown`.
pub open spec fn button_of_code(code: nat) -> MouseButton {
    if code == 1 {
        MouseButton::Left
    } else if code == 2 {
        MouseButton::Middle
    } else if code == 3 {
        MouseButton::Right
    } else if code == 4 {
        MouseButton::WheelUp
    } else if code == 5 {
        MouseButton::WheelDown
    } else if code == 8 {
        MouseButton::Back
    } else if code == 9 {
        MouseButton::Forward
    } else {
        MouseButton::Unknown
    }
}

impl MouseButton {
    /// Decodes a protocol button code. Never fails: the seven codes with a
    /// meaning give their button, every other code gives `Unknown`.
    pub fn from_code(code: u64) -> (button: MouseButton)
        ensures
            button == button_of_code(code as nat),
            button == MouseButton::Unknown <==> !(1 <= code <= 5 || code == 8 || code == 9),
    {
        match code {
            1 => MouseButton::Left,
            2 => MouseButton::Middle,
            3 => MouseButton::Right,
            4 => MouseButton::WheelUp,
            5 => MouseButton::WheelDown,
            8 => MouseButton::Back,
            9 => MouseButton::Forward,
            _ => MouseButton::Unknown,
        }
    }
}

} // verus!
