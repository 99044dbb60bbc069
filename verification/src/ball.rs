//! The ball entity: a square bounding box approximating a circle, plus a
//! velocity and a visibility flag.

use vstd::prelude::*;

use crate::geometry::{Quad, Vec2};

verus! {

#[derive(Clone, Copy, Debug, PartialEq, Eq, Structural)]
pub struct Ball {
    pub quad: Quad,
    pub velocity: Vec2,
    pub visible: bool,
}

impl Ball {
    /// A fresh ball is at rest and visible; `radius` is its half-extent on
    /// both axes (`size.x == size.y == radius`).
    pub fn new(position: Vec2, radius: i64) -> (b: Ball)
        ensures
            b.quad.position == position,
            b.quad.size == (Vec2 { x: radius, y: radius }),
            b.velocity == (Vec2 { x: 0i64, y: 0i64 }),
            b.visible,
    {
        Ball {
            quad: Quad::new(position, Vec2::new(radius, radius)),
            velocity: Vec2::new(0, 0),
            visible: true,
        }
    }

    pub fn position(&self) -> (p: Vec2)
        ensures
            p == self.quad.position,
    {
        self.quad.position
    }

    /// The ball's half-extent (stored as `size.x`).
    pub fn radius(&self) -> (r: i64)
        ensures
            r == self.quad.size.x,
    {
        self.quad.size.x
    }

    /// Moves the ball; its extents are kept.
    pub fn update_position(&mut self, position: Vec2)
        ensures
            *final(self) == (Ball { quad: Quad { position, ..old(self).quad }, ..*old(self) }),
    {
        self.quad = Quad::new(position, self.quad.size);
    }
}

} // verus!
