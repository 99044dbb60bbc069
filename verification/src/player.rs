//! The paddle entity: a quad, a score counter and a visibility flag.

use vstd::prelude::*;

use crate::ball::Ball;
use crate::geometry::{Quad, Vec2};

verus! {

/// Bound on every coordinate the core works with, far outside the playfield
/// (whose edges are at `FIELD_EXTENT` = 1000) but small enough that all fixed-point
/// arithmetic stays well inside `i64`.
pub const COORD_LIMIT: i64 = 1000000;

pub open spec fn coord_in_range(c: int) -> bool {
    -COORD_LIMIT <= c <= COORD_LIMIT
}

pub open spec fn vec_in_range(v: Vec2) -> bool {
    coord_in_range(v.x as int) && coord_in_range(v.y as int)
}

#[derive(Clone, Copy, Debug, PartialEq, Eq, Structural)]
pub struct Player {
    pub quad: Quad,
    pub score: u32,
    pub visible: bool,
}

/// Axis-aligned overlap between a paddle and the ball. The paddle's
/// half-extents are `size/2` (rounded toward zero on odd sizes); the ball's
/// half-extent on both axes is its radius. All four inequalities are strict:
/// mere touching is not an overlap.
pub open spec fn paddle_overlaps_ball(p: Player, b: Ball) -> bool {
    let px = p.quad.position.x as int;
    let py = p.quad.position.y as int;
    let half_w = p.quad.size.x as int / 2;
    let half_h = p.quad.size.y as int / 2;
    let bx = b.quad.position.x as int;
    let by = b.quad.position.y as int;
    let r = b.quad.size.x as int;
    &&& px - half_w < bx + r
    &&& px + half_w > bx - r
    &&& py - half_h < by + r
    &&& py + half_h > by - r
}

impl Player {
    /// A fresh paddle has score 0 and is hidden until the visibility system
    /// first runs.
    pub fn new(position: Vec2, size: Vec2) -> (p: Player)
        ensures
            p.quad == (Quad { position, size }),
            p.score == 0,
            !p.visible,
    {
        Player { quad: Quad::new(position, size), score: 0, visible: false }
    }

    pub fn position(&self) -> (p: Vec2)
        ensures
            p == self.quad.position,
    {
        self.quad.position
    }

    pub fn size(&self) -> (s: Vec2)
        ensures
            s == self.quad.size,
    {
        self.quad.size
    }

    /// Moves the paddle vertically; its x-coordinate and extents are kept.
    pub fn update_y_position(&mut self, y: i64)
        ensures
            *final(self) == (Player {
                quad: Quad {
                    position: Vec2 { x: old(self).quad.position.x, y },
                    ..old(self).quad
                },
                ..*old(self)
            }),
    {
        let x = self.position().x;
        self.update_position(Vec2::new(x, y));
    }

    /// Moves the paddle; its extents are kept.
    pub fn update_position(&mut self, position: Vec2)
        ensures
            *final(self) == (Player {
                quad: Quad { position, ..old(self).quad },
                ..*old(self)
            }),
    {
        self.quad = Quad::new(position, self.quad.size);
    }

    /// Collision test between this paddle and the ball.
    pub fn contains(&self, ball: &Ball) -> (r: bool)
        requires
            self.quad.wf(),
            vec_in_range(self.quad.position),
            vec_in_range(self.quad.size),
            vec_in_range(ball.quad.position),
            vec_in_range(ball.quad.size),
        ensures
            r == paddle_overlaps_ball(*self, *ball),
    {
        let half_w = self.quad.size.x / 2;
        let half_h = self.quad.size.y / 2;
        let min_x = self.quad.position.x - half_w;
        let max_x = self.quad.position.x + half_w;
        let min_y = self.quad.position.y - half_h;
        let max_y = self.quad.position.y + half_h;

        let r = ball.radius();
        let b_min_x = ball.quad.position.x - r;
        let b_max_x = ball.quad.position.x + r;
        let b_min_y = ball.quad.position.y - r;
        let b_max_y = ball.quad.position.y + r;

        min_x < b_max_x && max_x > b_min_x && min_y < b_max_y && max_y > b_min_y
    }
}

} // verus!
