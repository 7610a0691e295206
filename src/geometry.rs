//! Grid coordinates of rooms and fixed-point positions inside them.
use vstd::prelude::*;

verus! {

/// A room's position on the world grid, as (x, y).
pub type RoomId = (i32, i32);

/// Positions and velocities are counted in sub-pixels: this many make one pixel.
pub const SUBPIXELS_PER_PIXEL: i32 = 64;

/// A 2D vector in sub-pixel units (a position, or a velocity).
#[derive(Clone, Copy, Debug, PartialEq, Eq, Structural)]
pub struct Vec2 {
    pub x: i32,
    pub y: i32,
}

/// Whether `p` whole pixels can be written in sub-pixels within an `i32`.
pub open spec fn pixels_fit(p: int) -> bool {
    i32::MIN <= p * SUBPIXELS_PER_PIXEL <= i32::MAX
}

/// The whole pixel that holds sub-pixel coordinate `v` (rounding down).
pub open spec fn floor_pixel(v: i32) -> int {
    (v as int) / (SUBPIXELS_PER_PIXEL as int)
}

impl Vec2 {
    /// A vector given in sub-pixels.
    pub fn new(x: i32, y: i32) -> (r: Vec2)
        ensures
            r.x == x,
            r.y == y,
    {
        Vec2 { x, y }
    }

    /// A vector given in whole pixels.
    pub fn from_pixels(x: i32, y: i32) -> (r: Vec2)
        requires
            pixels_fit(x as int),
            pixels_fit(y as int),
        ensures
            r.x == x * SUBPIXELS_PER_PIXEL,
            r.y == y * SUBPIXELS_PER_PIXEL,
    {
        Vec2 { x: x * SUBPIXELS_PER_PIXEL, y: y * SUBPIXELS_PER_PIXEL }
    }
}

/// Round a sub-pixel coordinate down to its whole pixel.
pub fn pixel_floor(v: i32) -> (r: i32)
    ensures
        r == floor_pixel(v),
{
    if v >= 0 {
        let q = (v as u32) / (SUBPIXELS_PER_PIXEL as u32);
        q as i32
    } else {
        let scale = SUBPIXELS_PER_PIXEL as u64;
        let m: u64 = (0i64 - v as i64) as u64;
        let q: u64 = (m + (scale - 1)) / scale;
        proof {
            let vi = v as int;
            let qi = q as int;
            assert(qi == (-vi + 63) / 64);
            assert(vi / 64 == -qi) by (nonlinear_arith)
                requires
                    vi < 0,
                    qi == (-vi + 63) / 64,
            ;
        }
        (0i64 - q as i64) as i32
    }
}

} // verus!
