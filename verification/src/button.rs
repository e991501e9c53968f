//! The three mouse buttons and the flag bits that announce their transitions.

use vstd::prelude::*;

verus! {

/// Flag bit: the left button went down.
pub const LEFT_DOWN: u32 = 0x0002;

/// Flag bit: the left button came up.
pub const LEFT_UP: u32 = 0x0004;

/// Flag bit: the right button went down.
pub const RIGHT_DOWN: u32 = 0x0008;

/// Flag bit: the right button came up.
pub const RIGHT_UP: u32 = 0x0010;

/// Flag bit: the middle button went down.
pub const MIDDLE_DOWN: u32 = 0x0020;

/// Flag bit: the middle button came up.
pub const MIDDLE_UP: u32 = 0x0040;

/// A mouse button. A button has no identity beyond its tag.
#[derive(Copy, Clone, PartialEq, Eq, Structural, Debug)]
pub enum Button {
    Left,
    Right,
    Middle,
}

impl Button {
    /// The flag bit that reports this button going down.
    pub open spec fn down_flag(self) -> u32 {
        match self {
            Button::Left => LEFT_DOWN,
            Button::Right => RIGHT_DOWN,
            Button::Middle => MIDDLE_DOWN,
        }
    }

    /// The flag bit that reports this button coming up.
    pub open spec fn up_flag(self) -> u32 {
        match self {
            Button::Left => LEFT_UP,
            Button::Right => RIGHT_UP,
            Button::Middle => MIDDLE_UP,
        }
    }
}

} // verus!
