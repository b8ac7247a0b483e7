//! Points of the plane as they cross the boundary.

use vstd::prelude::*;

verus! {

/// A point of an outline or a mesh.
///
/// Each coordinate is kept as the bit pattern of an IEEE 754 single-precision
/// number, in font design units. Nothing in this crate computes with the
/// coordinates: they are carried from the font engine to the caller bit for
/// bit.
#[derive(Clone, Copy, Debug, PartialEq, Eq, Structural)]
pub struct Vector2 {
    /// Bit pattern of the horizontal coordinate.
    pub x: u32,
    /// Bit pattern of the vertical coordinate.
    pub y: u32,
}

impl Vector2 {
    /// The point with the given coordinate bit patterns.
    pub fn new(x: u32, y: u32) -> (point: Vector2)
        ensures
            point.x == x,
            point.y == y,
    {
        Vector2 { x, y }
    }
}

} // verus!
