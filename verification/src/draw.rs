//! What the demo paints: the window dimensions, the indicator swatch's
//! position in the bottom-right corner, and the swatch's color for each
//! active channel.

use vstd::prelude::*;
use crate::state::CHANNEL_COUNT;

verus! {

/// Width of the demo window, in pixels.
pub const WINDOW_WIDTH: u32 = 800;

/// Height of the demo window, in pixels.
pub const WINDOW_HEIGHT: u32 = 600;

/// Side length of the square indicator swatch, in pixels.
pub const INDICATOR_SIZE: u32 = 50;

/// A pixel rectangle as the renderer takes it: top-left corner, then width
/// and height.
#[derive(Clone, Copy, Debug, PartialEq, Eq, Structural)]
pub struct ScreenRect {
    pub x: i32,
    pub y: i32,
    pub width: u32,
    pub height: u32,
}

/// The solid color the indicator swatch shows for each active channel:
/// pure red, pure green or pure blue.
pub fn indicator_color(active: usize) -> (color: (u8, u8, u8))
    requires
        active < CHANNEL_COUNT,
    ensures
        active == 0 ==> color == (255u8, 0u8, 0u8),
        active == 1 ==> color == (0u8, 255u8, 0u8),
        active == 2 ==> color == (0u8, 0u8, 255u8),
{
    if active == 0 {
        (255, 0, 0)
    } else if active == 1 {
        (0, 255, 0)
    } else {
        (0, 0, 255)
    }
}

/// Where the indicator swatch sits: flush with the bottom-right corner of
/// the window.
pub fn indicator_rect() -> (r: ScreenRect)
    ensures
        r.x == WINDOW_WIDTH - INDICATOR_SIZE,
        r.y == WINDOW_HEIGHT - INDICATOR_SIZE,
        r.width == INDICATOR_SIZE,
        r.height == INDICATOR_SIZE,
{
    ScreenRect {
        x: (WINDOW_WIDTH - INDICATOR_SIZE) as i32,
        y: (WINDOW_HEIGHT - INDICATOR_SIZE) as i32,
        width: INDICATOR_SIZE,
        height: INDICATOR_SIZE,
    }
}

} // verus!
