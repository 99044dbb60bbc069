//! Geometry primitives: fixed-point vectors and axis-aligned quads.

use vstd::prelude::*;

verus! {

/// A pair of fixed-point coordinates. Used for positions, sizes and
/// velocities, all in thousandths of a playfield unit.
#[derive(Clone, Copy, Debug, PartialEq, Eq, Structural)]
pub struct Vec2 {
    pub x: i64,
    pub y: i64,
}

impl Vec2 {
    pub fn new(x: i64, y: i64) -> (v: Vec2)
        ensures
            v == (Vec2 { x, y }),
    {
        Vec2 { x, y }
    }
}

/// An axis-aligned rectangle given by its center and its full extents.
#[derive(Clone, Copy, Debug, PartialEq, Eq, Structural)]
pub struct Quad {
    pub position: Vec2,
    pub size: Vec2,
}

impl Quad {
    /// Well-formed quads have non-negative extents.
    pub open spec fn wf(self) -> bool {
        self.size.x >= 0 && self.size.y >= 0
    }

    pub fn new(position: Vec2, size: Vec2) -> (q: Quad)
        ensures
            q == (Quad { position, size }),
    {
        Quad { position, size }
    }
}

} // verus!
