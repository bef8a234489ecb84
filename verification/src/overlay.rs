//! Where the capture indicator goes on the screen.

use vstd::prelude::*;

verus! {

/// Width of the overlay window, in pixels.
pub const OVERLAY_WIDTH: u32 = 400;

/// Distance of the overlay from the top of the screen, in pixels: just below
/// a menu bar.
pub const OVERLAY_TOP: i32 = 30;

/// The horizontal position that centres the overlay on a screen of the given
/// width: half of what the overlay leaves free, rounded towards zero, and
/// negative where the screen is narrower than the overlay.
pub open spec fn centred_x(screen_width: u32) -> int {
    if screen_width >= OVERLAY_WIDTH {
        (screen_width - OVERLAY_WIDTH) / 2
    } else {
        -((OVERLAY_WIDTH - screen_width) / 2)
    }
}

/// The position of the overlay's top left corner on a screen of the given
/// width: centred, at the top.
pub fn overlay_position(screen_width: u32) -> (position: (i32, i32))
    ensures
        position.0 == centred_x(screen_width),
        position.1 == OVERLAY_TOP,
{
    let x: i32 = if screen_width >= OVERLAY_WIDTH {
        let free: u32 = (screen_width - OVERLAY_WIDTH) / 2;
        free as i32
    } else {
        let missing: u32 = (OVERLAY_WIDTH - screen_width) / 2;
        -(missing as i32)
    };
    (x, OVERLAY_TOP)
}

} // verus!
