//! The world state: game phase, entities and text widgets.

use vstd::prelude::*;
use vstd::string::StringExecFns;

use crate::ball::Ball;
use crate::geometry::{Quad, Vec2};
use crate::player::Player;
use crate::text::{white, white_color, PongText, TextView};

verus! {

/// The top-level mode of the game; exactly one value is held at a time.
#[derive(Clone, Copy, Debug, PartialEq, Eq, Structural)]
pub enum GameState {
    MainMenu,
    Serving,
    Playing,
    GameOver,
    Quitting,
}

/// Horizontal distance of each paddle center from the field center.
pub const PADDLE_X_OFFSET: i64 = 800;

/// Full width of a paddle.
pub const PADDLE_WIDTH: i64 = 50;

/// Full height of a paddle.
pub const PADDLE_HEIGHT: i64 = 400;

/// The ball's half-extent on both axes.
pub const BALL_RADIUS: i64 = 50;

/// The playfield edge: coordinates live in `[-FIELD_EXTENT, FIELD_EXTENT]`.
pub const FIELD_EXTENT: i64 = 1000;

/// The world: one phase, two paddles, one ball and six text widgets. No
/// entity is ever added or removed; visibility flags substitute for
/// presence.
pub struct State {
    pub game_state: GameState,
    pub player1: Player,
    pub player2: Player,
    pub ball: Ball,
    pub title_text: PongText,
    pub play_button: PongText,
    pub quit_button: PongText,
    pub player1_score: PongText,
    pub player2_score: PongText,
    pub win_text: PongText,
}

/// The mathematical value of the world.
#[verifier::ext_equal]
pub ghost struct StateView {
    pub game_state: GameState,
    pub player1: Player,
    pub player2: Player,
    pub ball: Ball,
    pub title_text: TextView,
    pub play_button: TextView,
    pub quit_button: TextView,
    pub player1_score: TextView,
    pub player2_score: TextView,
    pub win_text: TextView,
}

impl View for State {
    type V = StateView;

    open spec fn view(&self) -> StateView {
        StateView {
            game_state: self.game_state,
            player1: self.player1,
            player2: self.player2,
            ball: self.ball,
            title_text: self.title_text@,
            play_button: self.play_button@,
            quit_button: self.quit_button@,
            player1_score: self.player1_score@,
            player2_score: self.player2_score@,
            win_text: self.win_text@,
        }
    }
}

/// Well-formedness of the world: the paddles stand on their fixed vertical
/// lines with their fixed extents and stay inside the field, the ball has
/// its fixed extents, never leaves the field vertically, and never moves
/// faster than `BALL_SPEED` on either axis.
pub open spec fn state_wf(sv: StateView) -> bool {
    &&& sv.player1.quad.position.x == -PADDLE_X_OFFSET
    &&& sv.player2.quad.position.x == PADDLE_X_OFFSET
    &&& sv.player1.quad.size == (Vec2 { x: PADDLE_WIDTH, y: PADDLE_HEIGHT })
    &&& sv.player2.quad.size == (Vec2 { x: PADDLE_WIDTH, y: PADDLE_HEIGHT })
    &&& -(FIELD_EXTENT - PADDLE_HEIGHT / 2) <= sv.player1.quad.position.y
        <= FIELD_EXTENT - PADDLE_HEIGHT / 2
    &&& -(FIELD_EXTENT - PADDLE_HEIGHT / 2) <= sv.player2.quad.position.y
        <= FIELD_EXTENT - PADDLE_HEIGHT / 2
    &&& sv.ball.quad.size == (Vec2 { x: BALL_RADIUS, y: BALL_RADIUS })
    &&& -FIELD_EXTENT <= sv.ball.quad.position.y <= FIELD_EXTENT
    &&& -crate::util::BALL_SPEED <= sv.ball.velocity.x <= crate::util::BALL_SPEED
    &&& -crate::util::BALL_SPEED <= sv.ball.velocity.y <= crate::util::BALL_SPEED
}

/// The initial world: main menu, centered paddles and ball, zero scores,
/// every widget unfocused and hidden (the ball itself starts visible; the
/// visibility system settles every flag on the first tick).
pub open spec fn initial_state() -> StateView {
    StateView {
        game_state: GameState::MainMenu,
        player1: Player {
            quad: Quad {
                position: Vec2 { x: (-PADDLE_X_OFFSET) as i64, y: 0 },
                size: Vec2 { x: PADDLE_WIDTH, y: PADDLE_HEIGHT },
            },
            score: 0,
            visible: false,
        },
        player2: Player {
            quad: Quad {
                position: Vec2 { x: PADDLE_X_OFFSET, y: 0 },
                size: Vec2 { x: PADDLE_WIDTH, y: PADDLE_HEIGHT },
            },
            score: 0,
            visible: false,
        },
        ball: Ball {
            quad: Quad {
                position: Vec2 { x: 0, y: 0 },
                size: Vec2 { x: BALL_RADIUS, y: BALL_RADIUS },
            },
            velocity: Vec2 { x: 0, y: 0 },
            visible: true,
        },
        title_text: TextView {
            text: "PONG"@,
            position: Vec2 { x: 20, y: 20 },
            size: 64,
            color: white(),
            centered: false,
            focused: false,
            visible: false,
        },
        play_button: TextView {
            text: "Play"@,
            position: Vec2 { x: 40, y: 100 },
            size: 32,
            color: white(),
            centered: false,
            focused: false,
            visible: false,
        },
        quit_button: TextView {
            text: "Quit"@,
            position: Vec2 { x: 40, y: 160 },
            size: 32,
            color: white(),
            centered: false,
            focused: false,
            visible: false,
        },
        player1_score: TextView {
            text: "0"@,
            position: Vec2 { x: 20, y: 20 },
            size: 32,
            color: white(),
            centered: false,
            focused: false,
            visible: false,
        },
        player2_score: TextView {
            text: "0"@,
            position: Vec2 { x: 120, y: 20 },
            size: 32,
            color: white(),
            centered: false,
            focused: false,
            visible: false,
        },
        win_text: TextView {
            text: Seq::<char>::empty(),
            position: Vec2 { x: 200, y: 200 },
            size: 32,
            color: white(),
            centered: true,
            focused: false,
            visible: false,
        },
    }
}

/// The quads a renderer is handed: each visible entity's quad, paddles
/// first, then the ball.
pub open spec fn quads_of(sv: StateView) -> Seq<Quad> {
    let p1 = if sv.player1.visible {
        seq![sv.player1.quad]
    } else {
        Seq::<Quad>::empty()
    };
    let p2 = if sv.player2.visible {
        seq![sv.player2.quad]
    } else {
        Seq::<Quad>::empty()
    };
    let b = if sv.ball.visible {
        seq![sv.ball.quad]
    } else {
        Seq::<Quad>::empty()
    };
    p1 + p2 + b
}

/// The widgets a text sink is handed: each visible widget, in the fixed
/// order title, play, quit, the two score labels, win announcement.
pub open spec fn texts_of(sv: StateView) -> Seq<TextView> {
    let pick = |t: TextView|
        if t.visible {
            seq![t]
        } else {
            Seq::<TextView>::empty()
        };
    pick(sv.title_text) + pick(sv.play_button) + pick(sv.quit_button) + pick(sv.player1_score)
        + pick(sv.player2_score) + pick(sv.win_text)
}

impl State {
    /// The world at startup.
    pub fn new() -> (s: State)
        ensures
            s@ == initial_state(),
    {
        let s = State {
            game_state: GameState::MainMenu,
            player1: Player::new(
                Vec2::new(-PADDLE_X_OFFSET, 0),
                Vec2::new(PADDLE_WIDTH, PADDLE_HEIGHT),
            ),
            player2: Player::new(
                Vec2::new(PADDLE_X_OFFSET, 0),
                Vec2::new(PADDLE_WIDTH, PADDLE_HEIGHT),
            ),
            ball: Ball::new(Vec2::new(0, 0), BALL_RADIUS),
            title_text: PongText {
                text: String::from_str("PONG"),
                position: Vec2::new(20, 20),
                size: 64,
                color: white_color(),
                centered: false,
                focused: false,
                visible: false,
            },
            play_button: PongText {
                text: String::from_str("Play"),
                position: Vec2::new(40, 100),
                size: 32,
                color: white_color(),
                centered: false,
                focused: false,
                visible: false,
            },
            quit_button: PongText {
                text: String::from_str("Quit"),
                position: Vec2::new(40, 160),
                size: 32,
                color: white_color(),
                centered: false,
                focused: false,
                visible: false,
            },
            player1_score: PongText {
                text: String::from_str("0"),
                position: Vec2::new(20, 20),
                size: 32,
                color: white_color(),
                centered: false,
                focused: false,
                visible: false,
            },
            player2_score: PongText {
                text: String::from_str("0"),
                position: Vec2::new(120, 20),
                size: 32,
                color: white_color(),
                centered: false,
                focused: false,
                visible: false,
            },
            win_text: PongText {
                text: String::new(),
                position: Vec2::new(200, 200),
                size: 32,
                color: white_color(),
                centered: true,
                focused: false,
                visible: false,
            },
        };
        proof {
            assert(s@ =~= initial_state());
        }
        s
    }

    /// The startup world is well formed.
    pub proof fn lemma_initial_state_wf()
        ensures
            state_wf(initial_state()),
    {
    }

    /// Rebuilds the renderable quad list from the current visibility flags.
    pub fn render_quads(&self) -> (r: Vec<Quad>)
        ensures
            r@ == quads_of(self@),
    {
        let mut r: Vec<Quad> = Vec::new();
        if self.player1.visible {
            r.push(self.player1.quad);
        }
        if self.player2.visible {
            r.push(self.player2.quad);
        }
        if self.ball.visible {
            r.push(self.ball.quad);
        }
        proof {
            assert(r@ =~= quads_of(self@));
        }
        r
    }

    /// Rebuilds the renderable text list from the current visibility flags.
    pub fn render_texts(&self) -> (r: Vec<PongText>)
        ensures
            r@.map_values(|t: PongText| t@) == texts_of(self@),
    {
        let mut r: Vec<PongText> = Vec::new();
        if self.title_text.visible {
            r.push(self.title_text.snapshot());
        }
        if self.play_button.visible {
            r.push(self.play_button.snapshot());
        }
        if self.quit_button.visible {
            r.push(self.quit_button.snapshot());
        }
        if self.player1_score.visible {
            r.push(self.player1_score.snapshot());
        }
        if self.player2_score.visible {
            r.push(self.player2_score.snapshot());
        }
        if self.win_text.visible {
            r.push(self.win_text.snapshot());
        }
        proof {
            assert(r@.map_values(|t: PongText| t@) =~= texts_of(self@));
        }
        r
    }
}

} // verus!
