//! Mouse events and their numeric code table.

use vstd::prelude::*;

verus! {

/// The kind of event received from the mouse.
#[derive(Clone, Copy, PartialEq, Eq, Structural, Hash, Debug)]
pub enum Mouse {
    Left,
    Right,
    Middle,
    Release,
    WheelUp,
    WheelDown,
}

/// The fixed mouse-code table: which `Mouse` a raw numeric code stands
/// for. Every other code maps to `None`.
pub open spec fn spec_mouse_of_code(code: u16) -> Option<Mouse> {
    if code == 65513 {
        Some(Mouse::Left)
    } else if code == 65512 {
        Some(Mouse::Right)
    } else if code == 65511 {
        Some(Mouse::Middle)
    } else if code == 65510 {
        Some(Mouse::Release)
    } else if code == 65509 {
        Some(Mouse::WheelUp)
    } else if code == 65508 {
        Some(Mouse::WheelDown)
    } else {
        None
    }
}

impl Mouse {
    /// Looks a raw numeric code up in the mouse-code table. Total over all
    /// codes: an unknown code yields `None`, never a panic.
    pub fn from_code(code: u16) -> (r: Option<Mouse>)
        ensures
            r == spec_mouse_of_code(code),
    {
        match code {
            65513 => Some(Mouse::Left),
            65512 => Some(Mouse::Right),
            65511 => Some(Mouse::Middle),
            65510 => Some(Mouse::Release),
            65509 => Some(Mouse::WheelUp),
            65508 => Some(Mouse::WheelDown),
            _ => None,
        }
    }
}

} // verus!
