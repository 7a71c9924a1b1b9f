//! Points of the drawing plane.
//!
//! A coordinate is a single-precision IEEE-754 number held by its bit
//! pattern, so that the conversion logic can compare and move coordinates
//! without doing any floating-point arithmetic itself.
use vstd::prelude::*;

verus! {

/// A point whose coordinates are IEEE-754 single-precision bit patterns.
#[derive(Clone, Copy, Debug)]
pub struct Point {
    pub x: u32,
    pub y: u32,
}

/// The bit pattern encodes a NaN: all exponent bits set and a non-zero mantissa.
pub open spec fn is_nan_bits(b: u32) -> bool {
    (b & 0x7f80_0000u32) == 0x7f80_0000u32 && (b & 0x007f_ffffu32) != 0
}

/// IEEE-754 equality of two coordinates: NaN equals nothing, and the two
/// zeros are equal; otherwise equal numbers have equal bit patterns.
pub open spec fn coord_eq(a: u32, b: u32) -> bool {
    !is_nan_bits(a) && !is_nan_bits(b) && (a == b || ((a & 0x7fff_ffffu32) == 0 && (b
        & 0x7fff_ffffu32) == 0))
}

/// Two points are equal when both coordinates are.
pub open spec fn point_eq(p: Point, q: Point) -> bool {
    coord_eq(p.x, q.x) && coord_eq(p.y, q.y)
}

impl Point {
    pub fn new(x: u32, y: u32) -> (r: Point)
        ensures
            r.x == x,
            r.y == y,
    {
        Point { x, y }
    }
}

/// Whether the bit pattern encodes a NaN.
pub fn is_nan(b: u32) -> (r: bool)
    ensures
        r == is_nan_bits(b),
{
    (b & 0x7f80_0000u32) == 0x7f80_0000u32 && (b & 0x007f_ffffu32) != 0
}

/// IEEE-754 equality of two coordinates.
pub fn coords_equal(a: u32, b: u32) -> (r: bool)
    ensures
        r == coord_eq(a, b),
{
    !is_nan(a) && !is_nan(b) && (a == b || ((a & 0x7fff_ffffu32) == 0 && (b & 0x7fff_ffffu32)
        == 0))
}

/// Equality of two points, coordinate by coordinate.
pub fn points_equal(p: &Point, q: &Point) -> (r: bool)
    ensures
        r == point_eq(*p, *q),
{
    coords_equal(p.x, q.x) && coords_equal(p.y, q.y)
}

} // verus!
