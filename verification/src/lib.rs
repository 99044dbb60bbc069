//! Simulation core of a two-player Pong game.
//!
//! The core is a deterministic, per-frame state machine over a fixed set of
//! entities (two paddles, a ball, six text widgets). All geometry lives in a
//! fixed-point coordinate space: one playfield unit of the normalized
//! `[-1, 1]` space is `FIELD_EXTENT` (1000) integer steps, so every constant
//! of the game's rules is exact. The host engine (window, renderer, audio, clock) is
//! kept outside: it hands the core key events and timestamps, and reads back
//! renderable quads, text widgets, and sound cues.

pub mod ball;
pub mod geometry;
pub mod input;
pub mod player;
pub mod pong_game;
pub mod state;
pub mod system;
pub mod text;
pub mod util;
