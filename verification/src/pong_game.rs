//! The game driver: owns the world, the input snapshot, the systems and the
//! per-tick event queue, and runs one simulation step per host frame.
//!
//! The host is expected to feed key events through `process_keyboard`, call
//! `update` once per frame with its monotone clock in milliseconds, play one
//! sound cue per returned event, rebuild its render lists from
//! `state.render_quads()` / `state.render_texts()`, and stop the frame loop
//! once `is_quitting()` holds.

use vstd::prelude::*;

use crate::geometry::Vec2;
use crate::input::{input_after_event, Input, KeyboardInput};
use crate::state::{initial_state, state_wf, GameState, State, StateView, FIELD_EXTENT};
use crate::system::{
    ball_update, game_over_start, menu_start, menu_update, play_update, serving_start,
    visibility_update, BallSystem, GameOverSystem, MenuSystem, PlaySystem, ServingSystem,
    VisibilitySystem, GAME_OVER_DELAY_MS, SERVE_DELAY_MS,
};

verus! {

/// A transient, same-tick notification of something that happened. Events
/// are queued while the systems run, drained into sound cues at the end of
/// the same tick, and never persisted.
#[derive(Clone, Copy, Debug, PartialEq, Eq, Structural)]
pub enum Event {
    ButtonPressed,
    FocusChanged,
    BallBounce(Vec2),
    Score(u32),
}

/// The whole game, exclusively owned by the host's frame loop.
pub struct PongGame {
    pub input: Input,
    pub events: Vec<Event>,
    pub state: State,
    pub menu_system: MenuSystem,
    pub serving_system: ServingSystem,
    pub play_system: PlaySystem,
    pub ball_system: BallSystem,
    pub game_over_system: GameOverSystem,
    pub visibility_system: VisibilitySystem,
}

/// The mathematical value of the whole game: the input snapshot, the queued
/// events, the world, and the two phase timers.
#[verifier::ext_equal]
pub ghost struct PongGameView {
    pub input: Input,
    pub events: Seq<Event>,
    pub state: StateView,
    pub serving_last: u64,
    pub game_over_last: u64,
}

impl View for PongGame {
    type V = PongGameView;

    open spec fn view(&self) -> PongGameView {
        PongGameView {
            input: self.input,
            events: self.events@,
            state: self.state@,
            serving_last: self.serving_system.last_time,
            game_over_last: self.game_over_system.last_time,
        }
    }
}

/// The driver invariant: the world is well formed, the ball is inside the
/// field horizontally, and the event queue was drained at the end of the
/// previous tick.
pub open spec fn game_wf(g: PongGameView) -> bool {
    &&& state_wf(g.state)
    &&& -FIELD_EXTENT <= g.state.ball.quad.position.x <= FIELD_EXTENT
    &&& g.events.len() == 0
}

/// One tick of the transition table: visibility first, then the systems of
/// the current phase, then the start hook of the newly entered phase, if
/// any. Yields the next game value (with the queue already drained) and the
/// sound cues of the tick, one per event the systems emitted.
pub open spec fn game_tick(g: PongGameView, now: u64) -> (PongGameView, Seq<Event>) {
    let sv0 = visibility_update(g.state);
    let stepped = match sv0.game_state {
        GameState::MainMenu => {
            let (sv1, emitted) = menu_update(sv0, g.input);
            if sv1.game_state == GameState::Serving {
                (serving_start(sv1), emitted, now, g.game_over_last)
            } else {
                (sv1, emitted, g.serving_last, g.game_over_last)
            }
        },
        GameState::Serving => {
            let sv1 = if now - g.serving_last > SERVE_DELAY_MS {
                StateView { game_state: GameState::Playing, ..sv0 }
            } else {
                sv0
            };
            let sv2 = play_update(sv1, g.input);
            (sv2, Seq::<Event>::empty(), g.serving_last, g.game_over_last)
        },
        GameState::Playing => {
            let (sv1, emitted) = ball_update(sv0);
            let sv2 = play_update(sv1, g.input);
            if sv2.game_state == GameState::Serving {
                (serving_start(sv2), emitted, now, g.game_over_last)
            } else if sv2.game_state == GameState::GameOver {
                // No system of this game ever enters GameOver from play (the
                // physics only hands a rally back to Serving); the arm keeps
                // the phase table complete.
                (game_over_start(sv2), emitted, g.serving_last, now)
            } else {
                (sv2, emitted, g.serving_last, g.game_over_last)
            }
        },
        GameState::GameOver => {
            let sv1 = if now - g.game_over_last > GAME_OVER_DELAY_MS {
                StateView { game_state: GameState::MainMenu, ..sv0 }
            } else {
                sv0
            };
            if sv1.game_state == GameState::MainMenu {
                (menu_start(sv1), Seq::<Event>::empty(), g.serving_last, g.game_over_last)
            } else {
                (sv1, Seq::<Event>::empty(), g.serving_last, g.game_over_last)
            }
        },
        GameState::Quitting => (sv0, Seq::<Event>::empty(), g.serving_last, g.game_over_last),
    };
    let next = PongGameView {
        input: g.input,
        events: Seq::<Event>::empty(),
        state: stepped.0,
        serving_last: stepped.2,
        game_over_last: stepped.3,
    };
    (next, g.events + stepped.1)
}

impl PongGame {
    /// A fresh game: empty input snapshot, empty queue, the startup world,
    /// both timers at zero.
    pub fn new() -> (g: PongGame)
        ensures
            g@ == (PongGameView {
                input: Input {
                    p1_up_pressed: false,
                    p1_down_pressed: false,
                    p2_up_pressed: false,
                    p2_down_pressed: false,
                    enter_pressed: false,
                    esc_pressed: false,
                },
                events: Seq::<Event>::empty(),
                state: initial_state(),
                serving_last: 0,
                game_over_last: 0,
            }),
            game_wf(g@),
    {
        let g = PongGame {
            input: Input::new(),
            events: Vec::new(),
            state: State::new(),
            menu_system: MenuSystem,
            serving_system: ServingSystem::new(),
            play_system: PlaySystem,
            ball_system: BallSystem,
            game_over_system: GameOverSystem::new(),
            visibility_system: VisibilitySystem,
        };
        proof {
            assert(g@ =~= (PongGameView {
                input: Input {
                    p1_up_pressed: false,
                    p1_down_pressed: false,
                    p2_up_pressed: false,
                    p2_down_pressed: false,
                    enter_pressed: false,
                    esc_pressed: false,
                },
                events: Seq::<Event>::empty(),
                state: initial_state(),
                serving_last: 0,
                game_over_last: 0,
            }));
        }
        g
    }

    /// Runs once before the first frame: enters the menu as a fresh match.
    pub fn initialize(&mut self)
        ensures
            final(self)@ == (PongGameView { state: menu_start(old(self)@.state), ..old(self)@ }),
    {
        self.menu_system.start(&mut self.state);
        proof {
            assert(final(self)@ =~= (PongGameView {
                state: menu_start(old(self)@.state),
                ..old(self)@
            }));
        }
    }

    /// Folds one raw key event into the input snapshot.
    pub fn process_keyboard(&mut self, input: KeyboardInput)
        ensures
            final(self)@ == (PongGameView {
                input: input_after_event(old(self).input, input),
                ..old(self)@
            }),
    {
        self.input.update(input);
        proof {
            assert(final(self)@ =~= (PongGameView {
                input: input_after_event(old(self).input, input),
                ..old(self)@
            }));
        }
    }

    /// One simulation tick. `now` is the host clock in milliseconds; the
    /// returned events are the tick's sound cues, one per event emitted,
    /// drained from the queue, which ends the tick empty.
    pub fn update(&mut self, now: u64) -> (cues: Vec<Event>)
        requires
            game_wf(old(self)@),
            old(self).state.player1.score < u32::MAX,
            old(self).state.player2.score < u32::MAX,
            now >= old(self).serving_system.last_time,
            now >= old(self).game_over_system.last_time,
        ensures
            final(self)@ == game_tick(old(self)@, now).0,
            cues@ == game_tick(old(self)@, now).1,
            game_wf(final(self)@),
            final(self).serving_system.last_time <= now,
            final(self).game_over_system.last_time <= now,
    {
        self.visibility_system.update_state(&self.input, &mut self.state, &mut self.events);
        match self.state.game_state {
            GameState::MainMenu => {
                self.menu_system.update_state(&self.input, &mut self.state, &mut self.events);
                if self.state.game_state == GameState::Serving {
                    self.serving_system.start(&mut self.state, now);
                }
            },
            GameState::Serving => {
                self.serving_system.update_state(&self.input, &mut self.state, now);
                self.play_system.update_state(&self.input, &mut self.state, &mut self.events);
            },
            GameState::Playing => {
                self.ball_system.update_state(&self.input, &mut self.state, &mut self.events);
                self.play_system.update_state(&self.input, &mut self.state, &mut self.events);
                if self.state.game_state == GameState::Serving {
                    self.serving_system.start(&mut self.state, now);
                } else if self.state.game_state == GameState::GameOver {
                    self.game_over_system.start(&mut self.state, now);
                }
            },
            GameState::GameOver => {
                self.game_over_system.update_state(&self.input, &mut self.state, now);
                if self.state.game_state == GameState::MainMenu {
                    self.menu_system.start(&mut self.state);
                }
            },
            GameState::Quitting => {},
        }

        let mut cues: Vec<Event> = Vec::new();
        core::mem::swap(&mut cues, &mut self.events);
        proof {
            assert(final(self)@ =~= game_tick(old(self)@, now).0);
            assert(cues@ =~= game_tick(old(self)@, now).1);
        }
        cues
    }

    /// Whether the host's frame loop should stop.
    pub fn is_quitting(&self) -> (r: bool)
        ensures
            r == (self.state.game_state == GameState::Quitting),
    {
        match self.state.game_state {
            GameState::Quitting => true,
            _ => false,
        }
    }
}

} // verus!
