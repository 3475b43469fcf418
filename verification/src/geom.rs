//! Fixed-point geometry: milli-unit vectors, pixel rectangles, and the
//! scalar helpers (absolute value, clamping, sign) the game rules use.

use vstd::prelude::*;

verus! {

/// Number of fixed-point milli-units in one world unit. All continuous
/// quantities (positions, velocities, scale factors, cycle phases) are
/// exact integer counts of thousandths of a world unit.
pub const MILLI: i64 = 1000;

/// Half of one world unit, in milli-units.
pub const HALF_MILLI: i64 = 500;

/// Bound on the magnitude of a world coordinate, in milli-units.
/// Position integration saturates here, so coordinate arithmetic never
/// overflows an `i64`.
pub const COORD_LIMIT: i64 = 0x0010_0000_0000_0000;

/// Bound on pixel coordinates and pixel dimensions of source rectangles.
pub const PIXEL_LIMIT: i64 = 1_000_000;

/// A two-dimensional vector in milli-units.
#[derive(Clone, Copy, PartialEq, Eq, Structural, Debug)]
pub struct Vec2m {
    pub x: i64,
    pub y: i64,
}

/// An axis-aligned rectangle in texture pixels: top-left corner, then
/// width and height.
#[derive(Clone, Copy, PartialEq, Eq, Structural, Debug)]
pub struct PixelRect {
    pub x: i64,
    pub y: i64,
    pub w: i64,
    pub h: i64,
}

/// A rectangle lies in the supported pixel range.
pub open spec fn rect_wf(r: PixelRect) -> bool {
    &&& 0 <= r.x <= PIXEL_LIMIT
    &&& 0 <= r.y <= PIXEL_LIMIT
    &&& 0 <= r.w <= PIXEL_LIMIT
    &&& 0 <= r.h <= PIXEL_LIMIT
}

/// Absolute value.
pub open spec fn abs_val(v: int) -> int {
    if v < 0 { -v } else { v }
}

pub open spec fn min_val(a: int, b: int) -> int {
    if a <= b { a } else { b }
}

pub open spec fn max_val(a: int, b: int) -> int {
    if a >= b { a } else { b }
}

/// The unit sign factor of a value. Zero maps to one, mirroring `signum`
/// on (positive-zero) IEEE floats, whose behaviour the movement and
/// facing rules follow.
pub open spec fn sign_unit(v: int) -> int {
    if v < 0 { -1 } else { 1 }
}

/// A coordinate is representable.
pub open spec fn in_coord_range(c: int) -> bool {
    -(COORD_LIMIT as int) <= c <= COORD_LIMIT as int
}

/// Saturate a coordinate into the representable range.
pub open spec fn clamp_coord_spec(c: int) -> int {
    if c < -(COORD_LIMIT as int) {
        -(COORD_LIMIT as int)
    } else if c > COORD_LIMIT as int {
        COORD_LIMIT as int
    } else {
        c
    }
}

/// Add a displacement to a coordinate, saturating at the coordinate range.
pub fn add_coord(c: i64, d: i64) -> (r: i64)
    requires
        in_coord_range(c as int),
        -(COORD_LIMIT as int) <= d as int <= COORD_LIMIT as int,
    ensures
        r as int == clamp_coord_spec(c as int + d as int),
        in_coord_range(r as int),
{
    let s: i64 = c + d;
    if s < -COORD_LIMIT {
        -COORD_LIMIT
    } else if s > COORD_LIMIT {
        COORD_LIMIT
    } else {
        s
    }
}

} // verus!
