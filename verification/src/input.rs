//! Per-frame input snapshot, built from discrete key events.
//!
//! Movement flags are level-triggered: true while the key is held, false
//! once it is released. `enter_pressed` is level-triggered as well, so menu
//! confirmation fires on every tick while the key is down; hosts that want
//! edge-triggering clear the snapshot between ticks.

use vstd::prelude::*;

verus! {

/// The keys the core reads. Every other key of the host maps to `Other`
/// and is ignored.
#[derive(Clone, Copy, Debug, PartialEq, Eq, Structural)]
pub enum KeyboardKey {
    Up,
    Down,
    W,
    S,
    Return,
    Escape,
    Other,
}

#[derive(Clone, Copy, Debug, PartialEq, Eq, Structural)]
pub enum KeyboardKeyState {
    Pressed,
    Released,
}

/// One discrete key-down or key-up event.
#[derive(Clone, Copy, Debug, PartialEq, Eq, Structural)]
pub struct KeyboardInput {
    pub key: KeyboardKey,
    pub state: KeyboardKeyState,
}

#[derive(Clone, Copy, Debug, PartialEq, Eq, Structural)]
pub struct Input {
    pub p1_up_pressed: bool,
    pub p1_down_pressed: bool,
    pub p2_up_pressed: bool,
    pub p2_down_pressed: bool,
    pub enter_pressed: bool,
    pub esc_pressed: bool,
}

/// The snapshot after one key event: the flag of the event's key follows the
/// key state, every other flag is kept. The escape flag latches: it is set on
/// any escape event and only `clear` resets it.
pub open spec fn input_after_event(i: Input, ev: KeyboardInput) -> Input {
    let pressed = ev.state == KeyboardKeyState::Pressed;
    match ev.key {
        KeyboardKey::Up => Input { p2_up_pressed: pressed, ..i },
        KeyboardKey::Down => Input { p2_down_pressed: pressed, ..i },
        KeyboardKey::W => Input { p1_up_pressed: pressed, ..i },
        KeyboardKey::S => Input { p1_down_pressed: pressed, ..i },
        KeyboardKey::Return => Input { enter_pressed: pressed, ..i },
        KeyboardKey::Escape => Input { esc_pressed: true, ..i },
        KeyboardKey::Other => i,
    }
}

impl Input {
    /// A fresh snapshot: nothing held.
    pub fn new() -> (i: Input)
        ensures
            i == (Input {
                p1_up_pressed: false,
                p1_down_pressed: false,
                p2_up_pressed: false,
                p2_down_pressed: false,
                enter_pressed: false,
                esc_pressed: false,
            }),
    {
        Input {
            p1_up_pressed: false,
            p1_down_pressed: false,
            p2_up_pressed: false,
            p2_down_pressed: false,
            enter_pressed: false,
            esc_pressed: false,
        }
    }

    /// Folds one key event into the snapshot.
    pub fn update(&mut self, input: KeyboardInput)
        ensures
            *final(self) == input_after_event(*old(self), input),
    {
        let pressed = input.state == KeyboardKeyState::Pressed;
        match input.key {
            KeyboardKey::Up => {
                self.p2_up_pressed = pressed;
            },
            KeyboardKey::Down => {
                self.p2_down_pressed = pressed;
            },
            KeyboardKey::W => {
                self.p1_up_pressed = pressed;
            },
            KeyboardKey::S => {
                self.p1_down_pressed = pressed;
            },
            KeyboardKey::Return => {
                self.enter_pressed = pressed;
            },
            KeyboardKey::Escape => {
                self.esc_pressed = true;
            },
            KeyboardKey::Other => {},
        }
    }

    /// Menu-up: either player's up control operates the menu.
    pub fn ui_up_pressed(&self) -> (r: bool)
        ensures
            r == (self.p1_up_pressed || self.p2_up_pressed),
    {
        self.p1_up_pressed || self.p2_up_pressed
    }

    /// Menu-down: either player's down control operates the menu.
    pub fn ui_down_pressed(&self) -> (r: bool)
        ensures
            r == (self.p1_down_pressed || self.p2_down_pressed),
    {
        self.p1_down_pressed || self.p2_down_pressed
    }

    /// Releases every flag.
    pub fn clear(&mut self)
        ensures
            *final(self) == (Input {
                p1_up_pressed: false,
                p1_down_pressed: false,
                p2_up_pressed: false,
                p2_down_pressed: false,
                enter_pressed: false,
                esc_pressed: false,
            }),
    {
        self.p2_up_pressed = false;
        self.p2_down_pressed = false;
        self.p1_up_pressed = false;
        self.p1_down_pressed = false;
        self.enter_pressed = false;
        self.esc_pressed = false;
    }
}

} // verus!
