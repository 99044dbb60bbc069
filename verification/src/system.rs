//! The per-tick systems: visibility, menu, paddle movement, ball physics,
//! serving and game over. Each system owns the update logic of one concern;
//! the driver (`pong_game`) dispatches exactly the systems of the current
//! phase each tick and runs a system's `start` hook once on phase entry.

use vstd::prelude::*;
use vstd::string::StringExecFns;

use crate::ball::Ball;
use crate::geometry::{Quad, Vec2};
use crate::input::Input;
use crate::player::{coord_in_range, paddle_overlaps_ball, vec_in_range, Player};
use crate::pong_game::Event;
use crate::state::{state_wf, GameState, State, StateView, FIELD_EXTENT};
use crate::text::{dec_seq, score_string, TextView};
use crate::util::{
    calc_ball_velocity, calc_velocity_x, calc_velocity_y, lemma_deflection_bounded, BALL_SPEED,
    PLAYER_SPEED,
};

verus! {

/// How long the serving phase holds the ball before the rally starts.
pub const SERVE_DELAY_MS: u64 = 2000;

/// How long the game-over announcement stays before the menu returns.
pub const GAME_OVER_DELAY_MS: u64 = 1000;

// ---------------------------------------------------------------------------
// Visibility
// ---------------------------------------------------------------------------

/// Visibility flags as a pure function of the phase: paddles, ball and score
/// labels are shown during play (the ball hidden again in game over), the
/// title and menu buttons only in the menu, the win text only in game over,
/// and everything is hidden while quitting.
pub open spec fn visibility_update(sv: StateView) -> StateView {
    let in_game = sv.game_state == GameState::Serving || sv.game_state == GameState::Playing
        || sv.game_state == GameState::GameOver;
    let in_menu = sv.game_state == GameState::MainMenu;
    StateView {
        ball: Ball { visible: in_game && sv.game_state != GameState::GameOver, ..sv.ball },
        player1: Player { visible: in_game, ..sv.player1 },
        player2: Player { visible: in_game, ..sv.player2 },
        player1_score: TextView { visible: in_game, ..sv.player1_score },
        player2_score: TextView { visible: in_game, ..sv.player2_score },
        title_text: TextView { visible: in_menu, ..sv.title_text },
        play_button: TextView { visible: in_menu, ..sv.play_button },
        quit_button: TextView { visible: in_menu, ..sv.quit_button },
        win_text: TextView { visible: sv.game_state == GameState::GameOver, ..sv.win_text },
        ..sv
    }
}

/// Runs unconditionally, first, every tick; sets every visibility flag from
/// the current phase and changes nothing else. Never emits events.
pub struct VisibilitySystem;

impl VisibilitySystem {
    pub fn update_state(&self, _input: &Input, state: &mut State, events: &mut Vec<Event>)
        ensures
            final(state)@ == visibility_update(old(state)@),
            *final(events) == *old(events),
    {
        let in_game = match state.game_state {
            GameState::Serving | GameState::Playing | GameState::GameOver => true,
            _ => false,
        };
        let in_menu = match state.game_state {
            GameState::MainMenu => true,
            _ => false,
        };
        let in_game_over = match state.game_state {
            GameState::GameOver => true,
            _ => false,
        };
        state.ball.visible = in_game && !in_game_over;
        state.player1.visible = in_game;
        state.player1_score.visible = in_game;
        state.player2.visible = in_game;
        state.player2_score.visible = in_game;
        state.title_text.visible = in_menu;
        state.play_button.visible = in_menu;
        state.quit_button.visible = in_menu;
        state.win_text.visible = in_game_over;
        proof {
            assert(final(state)@ =~= visibility_update(old(state)@));
        }
    }
}

/// The visibility table, phase by phase: the menu shows only the title and
/// the two buttons; serving and playing show the paddles, the ball and the
/// score labels; game over keeps the paddles and labels, hides the ball and
/// shows the win text; quitting hides everything.
pub proof fn lemma_visibility_table(sv: StateView)
    ensures
        ({
            let r = visibility_update(sv);
            &&& sv.game_state == GameState::MainMenu ==> !r.player1.visible && !r.player2.visible
                && !r.ball.visible && !r.player1_score.visible && !r.player2_score.visible
                && r.title_text.visible && r.play_button.visible && r.quit_button.visible
                && !r.win_text.visible
            &&& (sv.game_state == GameState::Serving || sv.game_state == GameState::Playing)
                ==> r.player1.visible && r.player2.visible && r.ball.visible
                && r.player1_score.visible && r.player2_score.visible && !r.title_text.visible
                && !r.play_button.visible && !r.quit_button.visible && !r.win_text.visible
            &&& sv.game_state == GameState::GameOver ==> r.player1.visible && r.player2.visible
                && !r.ball.visible && r.player1_score.visible && r.player2_score.visible
                && !r.title_text.visible && !r.play_button.visible && !r.quit_button.visible
                && r.win_text.visible
            &&& sv.game_state == GameState::Quitting ==> !r.player1.visible && !r.player2.visible
                && !r.ball.visible && !r.player1_score.visible && !r.player2_score.visible
                && !r.title_text.visible && !r.play_button.visible && !r.quit_button.visible
                && !r.win_text.visible
        }),
{
}

/// Visibility is a pure function of the phase: two worlds in the same phase
/// get exactly the same visibility flags.
pub proof fn lemma_visibility_pure_in_phase(s1: StateView, s2: StateView)
    requires
        s1.game_state == s2.game_state,
    ensures
        visibility_update(s1).ball.visible == visibility_update(s2).ball.visible,
        visibility_update(s1).player1.visible == visibility_update(s2).player1.visible,
        visibility_update(s1).player2.visible == visibility_update(s2).player2.visible,
        visibility_update(s1).player1_score.visible == visibility_update(s2).player1_score.visible,
        visibility_update(s1).player2_score.visible == visibility_update(s2).player2_score.visible,
        visibility_update(s1).title_text.visible == visibility_update(s2).title_text.visible,
        visibility_update(s1).play_button.visible == visibility_update(s2).play_button.visible,
        visibility_update(s1).quit_button.visible == visibility_update(s2).quit_button.visible,
        visibility_update(s1).win_text.visible == visibility_update(s2).win_text.visible,
{
}

// ---------------------------------------------------------------------------
// Menu
// ---------------------------------------------------------------------------

/// A new match: both scores reset, both paddles re-centered, the play button
/// focused and the quit button not.
pub open spec fn menu_start(sv: StateView) -> StateView {
    StateView {
        player1: Player {
            score: 0,
            quad: Quad {
                position: Vec2 { x: sv.player1.quad.position.x, y: 0 },
                ..sv.player1.quad
            },
            ..sv.player1
        },
        player2: Player {
            score: 0,
            quad: Quad {
                position: Vec2 { x: sv.player2.quad.position.x, y: 0 },
                ..sv.player2.quad
            },
            ..sv.player2
        },
        play_button: TextView { focused: true, ..sv.play_button },
        quit_button: TextView { focused: false, ..sv.quit_button },
        ..sv
    }
}

/// One menu tick. A focus move and a confirmation are mutually exclusive:
/// at most one of them is processed per tick, the focus move first.
pub open spec fn menu_update(sv: StateView, input: Input) -> (StateView, Seq<Event>) {
    let ui_up = input.p1_up_pressed || input.p2_up_pressed;
    let ui_down = input.p1_down_pressed || input.p2_down_pressed;
    if sv.play_button.focused && ui_down {
        (
            StateView {
                play_button: TextView { focused: false, ..sv.play_button },
                quit_button: TextView { focused: true, ..sv.quit_button },
                ..sv
            },
            seq![Event::FocusChanged],
        )
    } else if sv.quit_button.focused && ui_up {
        (
            StateView {
                play_button: TextView { focused: true, ..sv.play_button },
                quit_button: TextView { focused: false, ..sv.quit_button },
                ..sv
            },
            seq![Event::FocusChanged],
        )
    } else if sv.play_button.focused && input.enter_pressed {
        (StateView { game_state: GameState::Serving, ..sv }, seq![Event::ButtonPressed])
    } else if sv.quit_button.focused && input.enter_pressed {
        (StateView { game_state: GameState::Quitting, ..sv }, seq![Event::ButtonPressed])
    } else {
        (sv, Seq::<Event>::empty())
    }
}

/// Owns menu navigation: which of the two buttons is focused, and what a
/// confirmation does (play starts a serve, quit ends the process).
#[derive(Debug)]
pub struct MenuSystem;

impl MenuSystem {
    /// Runs once on entry into the main menu.
    pub fn start(&mut self, state: &mut State)
        ensures
            final(state)@ == menu_start(old(state)@),
    {
        state.player1.score = 0;
        state.player2.score = 0;
        state.player1.update_y_position(0);
        state.player2.update_y_position(0);
        state.play_button.focused = true;
        state.quit_button.focused = false;
        proof {
            assert(final(state)@ =~= menu_start(old(state)@));
        }
    }

    pub fn update_state(&self, input: &Input, state: &mut State, events: &mut Vec<Event>)
        ensures
            final(state)@ == menu_update(old(state)@, *input).0,
            final(events)@ == old(events)@ + menu_update(old(state)@, *input).1,
    {
        if state.play_button.focused() && input.ui_down_pressed() {
            events.push(Event::FocusChanged);
            state.play_button.set_focus(false);
            state.quit_button.set_focus(true);
        } else if state.quit_button.focused() && input.ui_up_pressed() {
            events.push(Event::FocusChanged);
            state.quit_button.set_focus(false);
            state.play_button.set_focus(true);
        } else if state.play_button.focused() && input.enter_pressed {
            events.push(Event::ButtonPressed);
            state.game_state = GameState::Serving;
        } else if state.quit_button.focused() && input.enter_pressed {
            events.push(Event::ButtonPressed);
            state.game_state = GameState::Quitting;
        }
        proof {
            assert(final(state)@ =~= menu_update(old(state)@, *input).0);
            assert(final(events)@ =~= old(events)@ + menu_update(old(state)@, *input).1);
        }
    }
}

// ---------------------------------------------------------------------------
// Play (paddle movement)
// ---------------------------------------------------------------------------

/// A paddle's vertical move: up and down act independently, so holding both
/// cancels out.
pub open spec fn moved_paddle_y(y: int, up: bool, down: bool) -> int {
    y + (if up {
        PLAYER_SPEED as int
    } else {
        0
    }) - (if down {
        PLAYER_SPEED as int
    } else {
        0
    })
}

/// The unconditional clamp keeping a paddle of half-height `half` fully
/// inside the vertical field.
pub open spec fn clamped_paddle_y(y: int, half: int) -> int {
    if y > FIELD_EXTENT - half {
        FIELD_EXTENT - half
    } else if y < half - FIELD_EXTENT {
        half - FIELD_EXTENT
    } else {
        y
    }
}

/// A paddle's position after one play tick: move, then clamp.
pub open spec fn paddle_tick_y(y: int, up: bool, down: bool, size_y: int) -> int {
    clamped_paddle_y(moved_paddle_y(y, up, down), size_y / 2)
}

/// Both paddles after one play tick; nothing else of the world moves.
pub open spec fn play_update(sv: StateView, input: Input) -> StateView {
    StateView {
        player1: Player {
            quad: Quad {
                position: Vec2 {
                    x: sv.player1.quad.position.x,
                    y: paddle_tick_y(
                        sv.player1.quad.position.y as int,
                        input.p1_up_pressed,
                        input.p1_down_pressed,
                        sv.player1.quad.size.y as int,
                    ) as i64,
                },
                ..sv.player1.quad
            },
            ..sv.player1
        },
        player2: Player {
            quad: Quad {
                position: Vec2 {
                    x: sv.player2.quad.position.x,
                    y: paddle_tick_y(
                        sv.player2.quad.position.y as int,
                        input.p2_up_pressed,
                        input.p2_down_pressed,
                        sv.player2.quad.size.y as int,
                    ) as i64,
                },
                ..sv.player2.quad
            },
            ..sv.player2
        },
        ..sv
    }
}

/// After a play tick, a paddle that fits the field sits fully inside it,
/// wherever it started and whatever was pressed.
pub proof fn lemma_paddle_stays_in_field(y: int, up: bool, down: bool, size_y: int)
    requires
        0 <= size_y / 2 <= FIELD_EXTENT,
    ensures
        size_y / 2 - FIELD_EXTENT <= paddle_tick_y(y, up, down, size_y) <= FIELD_EXTENT - size_y
            / 2,
{
}

/// A paddle's position after a whole sequence of play ticks, each entry one
/// tick's (up, down) movement flags.
pub open spec fn paddle_y_after(y: int, moves: Seq<(bool, bool)>, size_y: int) -> int
    decreases moves.len(),
{
    if moves.len() == 0 {
        y
    } else {
        paddle_y_after(paddle_tick_y(y, moves[0].0, moves[0].1, size_y), moves.drop_first(), size_y)
    }
}

/// A paddle that fits the field sits fully inside it after every play tick,
/// for any sequence of movement inputs, wherever it started.
pub proof fn lemma_paddle_in_field_for_all_sequences(y: int, moves: Seq<(bool, bool)>, size_y: int)
    requires
        0 <= size_y / 2 <= FIELD_EXTENT,
        moves.len() > 0,
    ensures
        size_y / 2 - FIELD_EXTENT <= paddle_y_after(y, moves, size_y) <= FIELD_EXTENT - size_y / 2,
    decreases moves.len(),
{
    let y1 = paddle_tick_y(y, moves[0].0, moves[0].1, size_y);
    lemma_paddle_stays_in_field(y, moves[0].0, moves[0].1, size_y);
    if moves.len() > 1 {
        lemma_paddle_in_field_for_all_sequences(y1, moves.drop_first(), size_y);
    } else {
        assert(paddle_y_after(y1, moves.drop_first(), size_y) == y1);
    }
}

/// Moves each paddle by `PLAYER_SPEED` per held movement flag, then clamps
/// both into the field. The clamp runs every tick, movement or not, and is
/// idempotent.
#[derive(Debug)]
pub struct PlaySystem;

impl PlaySystem {
    #[verifier::rlimit(60)]
    pub fn update_state(&self, input: &Input, state: &mut State, events: &mut Vec<Event>)
        requires
            old(state).player1.quad.wf(),
            old(state).player2.quad.wf(),
            vec_in_range(old(state).player1.quad.position),
            vec_in_range(old(state).player2.quad.position),
            vec_in_range(old(state).player1.quad.size),
            vec_in_range(old(state).player2.quad.size),
        ensures
            final(state)@ == play_update(old(state)@, *input),
            *final(events) == *old(events),
            old(state).player1.quad.size.y / 2 <= FIELD_EXTENT ==> {
                let half = old(state).player1.quad.size.y as int / 2;
                half - FIELD_EXTENT <= final(state).player1.quad.position.y <= FIELD_EXTENT - half
            },
            old(state).player2.quad.size.y / 2 <= FIELD_EXTENT ==> {
                let half = old(state).player2.quad.size.y as int / 2;
                half - FIELD_EXTENT <= final(state).player2.quad.position.y <= FIELD_EXTENT - half
            },
    {
        if input.p1_up_pressed {
            let y = state.player1.position().y + PLAYER_SPEED;
            state.player1.update_y_position(y);
        }
        if input.p1_down_pressed {
            let y = state.player1.position().y - PLAYER_SPEED;
            state.player1.update_y_position(y);
        }
        if input.p2_up_pressed {
            let y = state.player2.position().y + PLAYER_SPEED;
            state.player2.update_y_position(y);
        }
        if input.p2_down_pressed {
            let y = state.player2.position().y - PLAYER_SPEED;
            state.player2.update_y_position(y);
        }

        let half1 = state.player1.size().y / 2;
        if state.player1.position().y > FIELD_EXTENT - half1 {
            state.player1.update_y_position(FIELD_EXTENT - half1);
        } else if state.player1.position().y < half1 - FIELD_EXTENT {
            state.player1.update_y_position(half1 - FIELD_EXTENT);
        }
        let half2 = state.player2.size().y / 2;
        if state.player2.position().y > FIELD_EXTENT - half2 {
            state.player2.update_y_position(FIELD_EXTENT - half2);
        } else if state.player2.position().y < half2 - FIELD_EXTENT {
            state.player2.update_y_position(half2 - FIELD_EXTENT);
        }
        proof {
            assert(final(state)@ =~= play_update(old(state)@, *input));
        }
    }
}

// ---------------------------------------------------------------------------
// Ball (physics)
// ---------------------------------------------------------------------------

/// Paddle collision: if the ball overlaps the left paddle (checked first) or
/// else the right one, its x is nudged away from the paddle to avoid
/// sticking and its velocity is recomputed by the deflection rule.
pub open spec fn ball_after_paddle(b: Ball, p1: Player, p2: Player) -> Ball {
    if paddle_overlaps_ball(p1, b) {
        Ball {
            quad: Quad {
                position: Vec2 {
                    x: (b.quad.position.x - (b.velocity.x - p1.quad.size.x)) as i64,
                    y: b.quad.position.y,
                },
                ..b.quad
            },
            velocity: Vec2 {
                x: calc_velocity_x(
                    b.quad.position.y as int,
                    p1.quad.position.y as int,
                    p1.quad.size.y as int,
                    p1.quad.position.x as int,
                ) as i64,
                y: calc_velocity_y(
                    b.quad.position.y as int,
                    p1.quad.position.y as int,
                    p1.quad.size.y as int,
                ) as i64,
            },
            ..b
        }
    } else if paddle_overlaps_ball(p2, b) {
        Ball {
            quad: Quad {
                position: Vec2 {
                    x: (b.quad.position.x - (b.velocity.x + p2.quad.size.x)) as i64,
                    y: b.quad.position.y,
                },
                ..b.quad
            },
            velocity: Vec2 {
                x: calc_velocity_x(
                    b.quad.position.y as int,
                    p2.quad.position.y as int,
                    p2.quad.size.y as int,
                    p2.quad.position.x as int,
                ) as i64,
                y: calc_velocity_y(
                    b.quad.position.y as int,
                    p2.quad.position.y as int,
                    p2.quad.size.y as int,
                ) as i64,
            },
            ..b
        }
    } else {
        b
    }
}

/// One explicit Euler step: the position advances by the velocity.
pub open spec fn ball_after_move(b: Ball) -> Ball {
    Ball {
        quad: Quad {
            position: Vec2 {
                x: (b.quad.position.x + b.velocity.x) as i64,
                y: (b.quad.position.y + b.velocity.y) as i64,
            },
            ..b.quad
        },
        ..b
    }
}

/// Wall bounce: beyond a horizontal wall the ball is clamped back onto it
/// and its vertical velocity flips.
pub open spec fn ball_after_walls(b: Ball) -> Ball {
    if b.quad.position.y > FIELD_EXTENT {
        Ball {
            quad: Quad {
                position: Vec2 { x: b.quad.position.x, y: FIELD_EXTENT },
                ..b.quad
            },
            velocity: Vec2 { x: b.velocity.x, y: (-b.velocity.y) as i64 },
            ..b
        }
    } else if b.quad.position.y < -FIELD_EXTENT {
        Ball {
            quad: Quad {
                position: Vec2 { x: b.quad.position.x, y: (-FIELD_EXTENT) as i64 },
                ..b.quad
            },
            velocity: Vec2 { x: b.velocity.x, y: (-b.velocity.y) as i64 },
            ..b
        }
    } else {
        b
    }
}

/// The ball after one full physics tick.
pub open spec fn ball_tick(b: Ball, p1: Player, p2: Player) -> Ball {
    ball_after_walls(ball_after_move(ball_after_paddle(b, p1, p2)))
}

/// The events of one physics tick: a bounce for a paddle hit (at the
/// pre-bounce position), a bounce for a wall hit (at the position before the
/// clamp), and a score when the ball ends the tick past a vertical boundary.
pub open spec fn ball_tick_events(b: Ball, p1: Player, p2: Player) -> Seq<Event> {
    let hit_paddle = paddle_overlaps_ball(p1, b) || paddle_overlaps_ball(p2, b);
    let e1 = if hit_paddle {
        seq![Event::BallBounce(b.quad.position)]
    } else {
        Seq::<Event>::empty()
    };
    let moved = ball_after_move(ball_after_paddle(b, p1, p2));
    let e2 = if moved.quad.position.y > FIELD_EXTENT || moved.quad.position.y < -FIELD_EXTENT {
        seq![Event::BallBounce(moved.quad.position)]
    } else {
        Seq::<Event>::empty()
    };
    let done = ball_after_walls(moved);
    let e3 = if done.quad.position.x > FIELD_EXTENT {
        seq![Event::Score(0u32)]
    } else if done.quad.position.x < -FIELD_EXTENT {
        seq![Event::Score(1u32)]
    } else {
        Seq::<Event>::empty()
    };
    e1 + e2 + e3
}

/// The world after one physics tick: the ball moves, and if it ended past a
/// vertical boundary the defender on that side failed, so the other player
/// scores and the phase returns to Serving. The out-of-bounds x is left as
/// it is; the serving start resets it.
pub open spec fn ball_update(sv: StateView) -> (StateView, Seq<Event>) {
    let done = ball_tick(sv.ball, sv.player1, sv.player2);
    let p1_scored = done.quad.position.x > FIELD_EXTENT;
    let p2_scored = done.quad.position.x < -FIELD_EXTENT;
    let sv1 = StateView {
        ball: done,
        player1: Player {
            score: if p1_scored {
                (sv.player1.score + 1) as u32
            } else {
                sv.player1.score
            },
            ..sv.player1
        },
        player2: Player {
            score: if p2_scored {
                (sv.player2.score + 1) as u32
            } else {
                sv.player2.score
            },
            ..sv.player2
        },
        game_state: if p1_scored || p2_scored {
            GameState::Serving
        } else {
            sv.game_state
        },
        ..sv
    };
    (sv1, ball_tick_events(sv.ball, sv.player1, sv.player2))
}

/// Scoring is exclusive: one physics tick increments at most one player's
/// score, and a player's score moves exactly when the ball ended the tick
/// past the boundary on the opponent's side.
pub proof fn lemma_scoring_exclusive(sv: StateView)
    requires
        sv.player1.score < u32::MAX,
        sv.player2.score < u32::MAX,
    ensures
        !(ball_update(sv).0.player1.score > sv.player1.score && ball_update(sv).0.player2.score
            > sv.player2.score),
        ball_update(sv).0.player1.score != sv.player1.score <==> ball_tick(
            sv.ball,
            sv.player1,
            sv.player2,
        ).quad.position.x > FIELD_EXTENT,
        ball_update(sv).0.player2.score != sv.player2.score <==> ball_tick(
            sv.ball,
            sv.player1,
            sv.player2,
        ).quad.position.x < -FIELD_EXTENT,
        ball_update(sv).0.player1.score != sv.player1.score ==> ball_update(sv).0.player1.score
            == sv.player1.score + 1,
        ball_update(sv).0.player2.score != sv.player2.score ==> ball_update(sv).0.player2.score
            == sv.player2.score + 1,
{
}

/// Runs only during Playing: paddle collision, one Euler step, wall bounce,
/// then scoring.
#[derive(Debug)]
pub struct BallSystem;

impl BallSystem {
    #[verifier::rlimit(60)]
    pub fn update_state(&self, _input: &Input, state: &mut State, events: &mut Vec<Event>)
        requires
            state_wf(old(state)@),
            coord_in_range(old(state).ball.quad.position.x as int),
            old(state).player1.score < u32::MAX,
            old(state).player2.score < u32::MAX,
        ensures
            final(state)@ == ball_update(old(state)@).0,
            final(events)@ == old(events)@ + ball_update(old(state)@).1,
            state_wf(final(state)@),
    {
        let ghost b0 = old(state).ball;
        let ghost p1 = old(state).player1;
        let ghost p2 = old(state).player2;
        if state.player1.contains(&state.ball) {
            events.push(Event::BallBounce(state.ball.position()));
            let nx = state.ball.position().x - (state.ball.velocity.x - state.player1.size().x);
            let y = state.ball.position().y;
            state.ball.update_position(Vec2::new(nx, y));
            state.ball.velocity = calc_ball_velocity(&state.ball, &state.player1);
        } else if state.player2.contains(&state.ball) {
            events.push(Event::BallBounce(state.ball.position()));
            let nx = state.ball.position().x - (state.ball.velocity.x + state.player2.size().x);
            let y = state.ball.position().y;
            state.ball.update_position(Vec2::new(nx, y));
            state.ball.velocity = calc_ball_velocity(&state.ball, &state.player2);
        }
        proof {
            lemma_deflection_bounded(
                b0.quad.position.y as int,
                p1.quad.position.y as int,
                p1.quad.size.y as int,
                p1.quad.position.x as int,
            );
            lemma_deflection_bounded(
                b0.quad.position.y as int,
                p2.quad.position.y as int,
                p2.quad.size.y as int,
                p2.quad.position.x as int,
            );
            assert(state.ball == ball_after_paddle(b0, p1, p2));
        }

        let moved = Vec2::new(
            state.ball.position().x + state.ball.velocity.x,
            state.ball.position().y + state.ball.velocity.y,
        );
        state.ball.update_position(moved);
        proof {
            assert(state.ball == ball_after_move(ball_after_paddle(b0, p1, p2)));
        }
        if state.ball.position().y > FIELD_EXTENT {
            events.push(Event::BallBounce(state.ball.position()));
            let x = state.ball.position().x;
            state.ball.update_position(Vec2::new(x, FIELD_EXTENT));
            state.ball.velocity = Vec2::new(state.ball.velocity.x, -state.ball.velocity.y);
        } else if state.ball.position().y < -FIELD_EXTENT {
            events.push(Event::BallBounce(state.ball.position()));
            let x = state.ball.position().x;
            state.ball.update_position(Vec2::new(x, -FIELD_EXTENT));
            state.ball.velocity = Vec2::new(state.ball.velocity.x, -state.ball.velocity.y);
        }
        proof {
            assert(state.ball == ball_tick(b0, p1, p2));
        }

        if state.ball.position().x > FIELD_EXTENT {
            state.player1.score = state.player1.score + 1;
            state.game_state = GameState::Serving;
            events.push(Event::Score(0));
        } else if state.ball.position().x < -FIELD_EXTENT {
            state.player2.score = state.player2.score + 1;
            state.game_state = GameState::Serving;
            events.push(Event::Score(1));
        }
        proof {
            assert(final(state)@ =~= ball_update(old(state)@).0);
            assert(final(events)@ =~= old(events)@ + ball_update(old(state)@).1);
        }
    }
}

// ---------------------------------------------------------------------------
// Serving
// ---------------------------------------------------------------------------

/// A serve: the ball returns to the center and moves horizontally at
/// `BALL_SPEED`, away from the side it last went out on (a previous x of
/// exactly zero counts as positive, so the default serve moves in the
/// negative-x direction); the score labels refresh to the current scores.
pub open spec fn serving_start(sv: StateView) -> StateView {
    StateView {
        ball: Ball {
            quad: Quad { position: Vec2 { x: 0, y: 0 }, ..sv.ball.quad },
            velocity: Vec2 {
                x: if sv.ball.quad.position.x >= 0 {
                    (-BALL_SPEED) as i64
                } else {
                    BALL_SPEED
                },
                y: 0,
            },
            ..sv.ball
        },
        player1_score: TextView { text: dec_seq(sv.player1.score as nat), ..sv.player1_score },
        player2_score: TextView { text: dec_seq(sv.player2.score as nat), ..sv.player2_score },
        ..sv
    }
}

/// Serve direction alternation: the serve moves toward the negative side
/// exactly when the ball last left the field on the positive side (where
/// the right paddle failed to return it), and vice versa.
pub proof fn lemma_serve_alternation(sv: StateView)
    ensures
        sv.ball.quad.position.x >= 0 <==> serving_start(sv).ball.velocity.x == -BALL_SPEED,
        sv.ball.quad.position.x < 0 <==> serving_start(sv).ball.velocity.x == BALL_SPEED,
{
}

/// Holds the ball for `SERVE_DELAY_MS` after a serve, then lets the rally
/// begin.
pub struct ServingSystem {
    pub last_time: u64,
}

impl ServingSystem {
    pub fn new() -> (s: ServingSystem)
        ensures
            s.last_time == 0,
    {
        ServingSystem { last_time: 0 }
    }

    /// Runs once on entry into Serving; `now` is the host clock in
    /// milliseconds.
    pub fn start(&mut self, state: &mut State, now: u64)
        ensures
            final(self).last_time == now,
            final(state)@ == serving_start(old(state)@),
    {
        self.last_time = now;
        let direction_positive = state.ball.position().x >= 0;
        state.ball.update_position(Vec2::new(0, 0));
        state.ball.velocity = Vec2::new(
            if direction_positive {
                -BALL_SPEED
            } else {
                BALL_SPEED
            },
            0,
        );
        state.player1_score.text = score_string(state.player1.score);
        state.player2_score.text = score_string(state.player2.score);
        proof {
            assert(final(state)@ =~= serving_start(old(state)@));
        }
    }

    /// Transitions to Playing once the serve delay has elapsed.
    pub fn update_state(&self, _input: &Input, state: &mut State, now: u64)
        requires
            now >= self.last_time,
        ensures
            final(state)@ == (if now - self.last_time > SERVE_DELAY_MS {
                StateView { game_state: GameState::Playing, ..old(state)@ }
            } else {
                old(state)@
            }),
    {
        if now - self.last_time > SERVE_DELAY_MS {
            state.game_state = GameState::Playing;
        }
        proof {
            if now - self.last_time > SERVE_DELAY_MS {
                assert(final(state)@ =~= (StateView {
                    game_state: GameState::Playing,
                    ..old(state)@
                }));
            }
        }
    }
}

// ---------------------------------------------------------------------------
// Game over
// ---------------------------------------------------------------------------

/// The game-over announcement: the score labels freeze at the final scores
/// and the win text names the higher-scoring player. An exact tie is
/// announced as a win for player 2, the observed rule of this game.
pub open spec fn game_over_start(sv: StateView) -> StateView {
    StateView {
        player1_score: TextView { text: dec_seq(sv.player1.score as nat), ..sv.player1_score },
        player2_score: TextView { text: dec_seq(sv.player2.score as nat), ..sv.player2_score },
        win_text: TextView {
            text: if sv.player1.score > sv.player2.score {
                "Player 1 wins!"@
            } else {
                "Player 2 wins!"@
            },
            ..sv.win_text
        },
        ..sv
    }
}

/// Shows the announcement for `GAME_OVER_DELAY_MS`, then returns to the
/// menu.
pub struct GameOverSystem {
    pub last_time: u64,
}

impl GameOverSystem {
    pub fn new() -> (s: GameOverSystem)
        ensures
            s.last_time == 0,
    {
        GameOverSystem { last_time: 0 }
    }

    /// Runs once on entry into GameOver; `now` is the host clock in
    /// milliseconds.
    pub fn start(&mut self, state: &mut State, now: u64)
        ensures
            final(self).last_time == now,
            final(state)@ == game_over_start(old(state)@),
    {
        self.last_time = now;
        state.player1_score.text = score_string(state.player1.score);
        state.player2_score.text = score_string(state.player2.score);
        state.win_text.text = if state.player1.score > state.player2.score {
            String::from_str("Player 1 wins!")
        } else {
            String::from_str("Player 2 wins!")
        };
        proof {
            assert(final(state)@ =~= game_over_start(old(state)@));
        }
    }

    /// Transitions back to the menu once the announcement delay has elapsed.
    pub fn update_state(&self, _input: &Input, state: &mut State, now: u64)
        requires
            now >= self.last_time,
        ensures
            final(state)@ == (if now - self.last_time > GAME_OVER_DELAY_MS {
                StateView { game_state: GameState::MainMenu, ..old(state)@ }
            } else {
                old(state)@
            }),
    {
        if now - self.last_time > GAME_OVER_DELAY_MS {
            state.game_state = GameState::MainMenu;
        }
        proof {
            if now - self.last_time > GAME_OVER_DELAY_MS {
                assert(final(state)@ =~= (StateView {
                    game_state: GameState::MainMenu,
                    ..old(state)@
                }));
            }
        }
    }
}

} // verus!
