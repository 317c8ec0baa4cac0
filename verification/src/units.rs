//! Fixed-point units and the integer arithmetic shared by the geometry code.
//!
//! Lengths and positions are whole numbers of subpixels, 64 to a pixel.
//! Em-relative font metrics are whole numbers of 1/65536 em. The product
//! of a metric and a font size is therefore a length in units of
//! 1/4194304 pixel, called fine units here.
use vstd::prelude::*;

verus! {

/// Subpixels in one pixel.
pub const SUBPIXELS: i32 = 64;

/// Em-relative metric units in one em.
pub const EM_UNITS: i32 = 65536;

/// Fine units in one pixel (subpixels per pixel times metric units per em).
pub const FINE_UNITS: i64 = 4194304;

/// Largest magnitude that an accumulated vertical position can reach.
pub const POSITION_LIMIT: i64 = 0x4000_0000_0000_0000;

/// Quotient of `v` by a positive `d`, rounded toward zero.
pub open spec fn trunc_div(v: int, d: int) -> int
    recommends
        d > 0,
{
    if v >= 0 {
        v / d
    } else {
        -((-v) / d)
    }
}

/// Quotient of `v` by a positive `d`, rounded toward positive infinity.
pub open spec fn ceil_div(v: int, d: int) -> int
    recommends
        d > 0,
{
    -((-v) / d)
}

/// `v` limited to the interval from `lo` to `hi`.
pub open spec fn clamp(v: int, lo: int, hi: int) -> int
    recommends
        lo <= hi,
{
    if v < lo {
        lo
    } else if v > hi {
        hi
    } else {
        v
    }
}

/// `v` limited to the range of `i32`.
pub open spec fn clamp_i32(v: int) -> int {
    clamp(v, i32::MIN as int, i32::MAX as int)
}

/// `v` limited to the range of `u32`.
pub open spec fn clamp_u32(v: int) -> int {
    clamp(v, 0, u32::MAX as int)
}

/// `v` limited to the range in which vertical positions are accumulated.
pub open spec fn clamp_position(v: int) -> int {
    clamp(v, -(POSITION_LIMIT as int), POSITION_LIMIT as int)
}

/// Half of `v`, rounded toward negative infinity.
pub open spec fn half(v: int) -> int {
    v / 2
}

/// Whole pixels in `v` fine units, rounded toward zero and limited to `i32`.
pub open spec fn fine_to_pixel(v: int) -> int {
    clamp_i32(trunc_div(v, FINE_UNITS as int))
}

/// Whole pixels in `v` subpixels, rounded toward zero.
pub open spec fn subpixel_to_pixel(v: int) -> int {
    trunc_div(v, SUBPIXELS as int)
}

/// Computes [`fine_to_pixel`].
pub fn fine_to_pixel_exec(v: i128) -> (r: i32)
    ensures
        r == fine_to_pixel(v as int),
{
    let q: i128 = v / 4194304;
    if q < -2147483648 {
        i32::MIN
    } else if q > 2147483647 {
        i32::MAX
    } else {
        q as i32
    }
}

/// Computes [`subpixel_to_pixel`] for a position that fits in `i32`.
pub fn subpixel_to_pixel_exec(v: i32) -> (r: i32)
    ensures
        r == subpixel_to_pixel(v as int),
{
    v / 64
}

/// Computes [`half`].
pub fn half_exec(v: i64) -> (r: i64)
    ensures
        r == half(v as int),
{
    if v >= 0 {
        v / 2
    } else {
        let m: i64 = -(v + 1);
        -(m / 2) - 1
    }
}

/// Adds a line height to an accumulated position, saturating at the limit.
pub fn advance_position(top: i64, height: i32) -> (r: i64)
    requires
        -POSITION_LIMIT <= top <= POSITION_LIMIT,
    ensures
        r == clamp_position(top + height),
{
    let sum: i64 = top + (height as i64);
    if sum < -POSITION_LIMIT {
        -POSITION_LIMIT
    } else if sum > POSITION_LIMIT {
        POSITION_LIMIT
    } else {
        sum
    }
}

} // verus!
