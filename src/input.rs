//! Pointer input as the engine sees it.
//!
//! Pointer coordinates are surface-local and kept in the compositor's wire
//! format: signed 24.8 fixed point (256 units per pixel).

use vstd::prelude::*;

verus! {

/// Numeric identity of a surface: handed out in increasing order from 1 and
/// never reused within a run.
pub type SurfaceId = u64;

/// Kernel input code of the left mouse button.
pub const BTN_LEFT: u32 = 272;

/// Kernel input code of the right mouse button.
pub const BTN_RIGHT: u32 = 273;

/// Kernel input code of the middle mouse button.
pub const BTN_MIDDLE: u32 = 274;

/// Input event from the compositor, routed to the surface it concerns.
#[derive(Debug, Clone, Copy)]
pub enum InputEvent {
    /// Pointer entered a surface
    PointerEnter { surface_id: SurfaceId, x: i32, y: i32 },
    /// Pointer left a surface
    PointerLeave { surface_id: SurfaceId },
    /// Pointer moved on a surface
    PointerMotion { surface_id: SurfaceId, x: i32, y: i32 },
    /// Pointer button pressed or released
    PointerButton { surface_id: SurfaceId, button: u32, pressed: bool, x: i32, y: i32 },
}

/// The button number that click handlers receive for a kernel button code:
/// left is 1, right is 3, middle is 2, and any other code passes through.
pub open spec fn button_number(code: u32) -> u32 {
    if code == BTN_LEFT {
        1
    } else if code == BTN_RIGHT {
        3
    } else if code == BTN_MIDDLE {
        2
    } else {
        code
    }
}

/// Translates a kernel button code into the number given to click handlers.
pub fn normalize_button(code: u32) -> (n: u32)
    ensures
        n == button_number(code),
{
    if code == BTN_LEFT {
        1
    } else if code == BTN_RIGHT {
        3
    } else if code == BTN_MIDDLE {
        2
    } else {
        code
    }
}

} // verus!
