//! Movement constants and the paddle-bounce deflection rule.
//!
//! The deflection rule maps the ball's vertical strike offset on a paddle to
//! an outgoing velocity: a center strike leaves horizontally, an edge strike
//! steeply, and the ball always moves away from the struck paddle's side.
//! The outgoing angle (a quarter turn scaled by the strike ratio) is
//! quantized to the nearest of six directions whose coordinates are exact
//! integer points on the circle of radius `BALL_SPEED` — the right triangles
//! 7-24-25 and 15-20-25 and the two axes — so the outgoing speed is exactly
//! `BALL_SPEED` for every strike.

use vstd::prelude::*;

use crate::ball::Ball;
use crate::geometry::Vec2;
use crate::player::{vec_in_range, Player};

verus! {

/// How far a paddle moves per tick while its movement flag is held.
pub const PLAYER_SPEED: i64 = 50;

/// The ball's constant speed: the magnitude of its velocity during a rally.
pub const BALL_SPEED: i64 = 25;

/// The sign convention of the core: zero counts as positive.
pub open spec fn sign_pos(x: int) -> int {
    if x >= 0 {
        1
    } else {
        -1
    }
}

/// The strike ratio, in thousandths of a quarter turn: the ball's vertical
/// offset from the paddle center, halved, relative to the paddle height.
/// Taken as an absolute value; the strike side sets the vertical sign.
pub open spec fn strike_ratio_abs(ball_y: int, paddle_y: int, paddle_size_y: int) -> int {
    let diff = ball_y - paddle_y;
    let diff_abs = if diff >= 0 {
        diff
    } else {
        -diff
    };
    diff_abs * 500 / paddle_size_y
}

/// Horizontal speed of the quantized outgoing direction. The bucket edges
/// are the midpoints between the six lattice angles on the quarter circle
/// of radius `BALL_SPEED` (0, 181, 410, 590, 819 and 1000 thousandths of a
/// quarter turn).
pub open spec fn deflect_mag_x(ratio_abs: int) -> int {
    if ratio_abs <= 90 {
        25
    } else if ratio_abs <= 295 {
        24
    } else if ratio_abs <= 500 {
        20
    } else if ratio_abs <= 705 {
        15
    } else if ratio_abs <= 910 {
        7
    } else {
        0
    }
}

/// Vertical speed of the quantized outgoing direction; the complement of
/// `deflect_mag_x` on the circle of radius `BALL_SPEED`.
pub open spec fn deflect_mag_y(ratio_abs: int) -> int {
    if ratio_abs <= 90 {
        0
    } else if ratio_abs <= 295 {
        7
    } else if ratio_abs <= 500 {
        15
    } else if ratio_abs <= 705 {
        20
    } else if ratio_abs <= 910 {
        24
    } else {
        25
    }
}

/// Outgoing horizontal velocity: away from the struck paddle's side of the
/// field (`paddle_x` distinguishes the left paddle from the right one).
pub open spec fn calc_velocity_x(
    ball_y: int,
    paddle_y: int,
    paddle_size_y: int,
    paddle_x: int,
) -> int {
    -sign_pos(paddle_x) * deflect_mag_x(strike_ratio_abs(ball_y, paddle_y, paddle_size_y))
}

/// Outgoing vertical velocity: toward the side of the paddle that was hit.
pub open spec fn calc_velocity_y(ball_y: int, paddle_y: int, paddle_size_y: int) -> int {
    let mag = deflect_mag_y(strike_ratio_abs(ball_y, paddle_y, paddle_size_y));
    if ball_y - paddle_y >= 0 {
        mag
    } else {
        -mag
    }
}

/// The ball's speed is invariant across a paddle-bounce deflection: for
/// every strike offset and either paddle, the outgoing velocity lies exactly
/// on the circle of radius `BALL_SPEED`.
pub proof fn lemma_deflection_speed_invariant(
    ball_y: int,
    paddle_y: int,
    paddle_size_y: int,
    paddle_x: int,
)
    ensures
        calc_velocity_x(ball_y, paddle_y, paddle_size_y, paddle_x)
            * calc_velocity_x(ball_y, paddle_y, paddle_size_y, paddle_x)
            + calc_velocity_y(ball_y, paddle_y, paddle_size_y)
            * calc_velocity_y(ball_y, paddle_y, paddle_size_y)
            == BALL_SPEED * BALL_SPEED,
{
    let r = strike_ratio_abs(ball_y, paddle_y, paddle_size_y);
    let mx = deflect_mag_x(r);
    let my = deflect_mag_y(r);
    assert(mx * mx + my * my == 625);
    let vx = calc_velocity_x(ball_y, paddle_y, paddle_size_y, paddle_x);
    let vy = calc_velocity_y(ball_y, paddle_y, paddle_size_y);
    assert(vx == mx || vx == -mx);
    assert(vy == my || vy == -my);
    assert((-mx) * (-mx) == mx * mx) by (nonlinear_arith);
    assert((-my) * (-my) == my * my) by (nonlinear_arith);
}

/// The deflected velocity moves the ball away from the struck paddle's side
/// whenever the strike is flat enough to have a horizontal component.
pub proof fn lemma_deflection_leaves_paddle(
    ball_y: int,
    paddle_y: int,
    paddle_size_y: int,
    paddle_x: int,
)
    ensures
        paddle_x >= 0 ==> calc_velocity_x(ball_y, paddle_y, paddle_size_y, paddle_x) <= 0,
        paddle_x < 0 ==> calc_velocity_x(ball_y, paddle_y, paddle_size_y, paddle_x) >= 0,
{
}

/// The deflected velocity never exceeds `BALL_SPEED` on either axis.
pub proof fn lemma_deflection_bounded(
    ball_y: int,
    paddle_y: int,
    paddle_size_y: int,
    paddle_x: int,
)
    ensures
        -BALL_SPEED <= calc_velocity_x(ball_y, paddle_y, paddle_size_y, paddle_x) <= BALL_SPEED,
        -BALL_SPEED <= calc_velocity_y(ball_y, paddle_y, paddle_size_y) <= BALL_SPEED,
{
}

/// The deflection applied after a bounce, as the executable core runs it.
pub fn calc_ball_velocity(ball: &Ball, player: &Player) -> (v: Vec2)
    requires
        player.quad.size.y > 0,
        vec_in_range(ball.quad.position),
        vec_in_range(player.quad.position),
        vec_in_range(player.quad.size),
    ensures
        v.x as int == calc_velocity_x(
            ball.quad.position.y as int,
            player.quad.position.y as int,
            player.quad.size.y as int,
            player.quad.position.x as int,
        ),
        v.y as int == calc_velocity_y(
            ball.quad.position.y as int,
            player.quad.position.y as int,
            player.quad.size.y as int,
        ),
{
    let diff_y = ball.position().y - player.position().y;
    let diff_abs = if diff_y >= 0 {
        diff_y
    } else {
        -diff_y
    };
    let ratio = diff_abs * 500 / player.size().y;

    let mag_x = if ratio <= 90 {
        25
    } else if ratio <= 295 {
        24
    } else if ratio <= 500 {
        20
    } else if ratio <= 705 {
        15
    } else if ratio <= 910 {
        7
    } else {
        0
    };
    let mag_y = if ratio <= 90 {
        0
    } else if ratio <= 295 {
        7
    } else if ratio <= 500 {
        15
    } else if ratio <= 705 {
        20
    } else if ratio <= 910 {
        24
    } else {
        25
    };

    let vx = if player.position().x >= 0 {
        -mag_x
    } else {
        mag_x
    };
    let vy = if diff_y >= 0 {
        mag_y
    } else {
        -mag_y
    };
    Vec2::new(vx, vy)
}

} // verus!
