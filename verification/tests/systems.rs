// Tests of the individual systems: visibility, menu, paddle movement, ball
// physics, serving and game over.

use pong::ball::Ball;
use pong::geometry::Vec2;
use pong::input::Input;
use pong::player::Player;
use pong::pong_game::Event;
use pong::state::{GameState, State};
use pong::system::{
    BallSystem, GameOverSystem, MenuSystem, PlaySystem, ServingSystem, VisibilitySystem,
};
use pong::util::calc_ball_velocity;

fn no_input() -> Input {
    Input::new()
}

fn flags(state: &State) -> [bool; 9] {
    [
        state.player1.visible,
        state.player2.visible,
        state.ball.visible,
        state.player1_score.visible,
        state.player2_score.visible,
        state.title_text.visible,
        state.play_button.visible,
        state.quit_button.visible,
        state.win_text.visible,
    ]
}

#[test]
fn visibility_table_per_phase() {
    let vis = VisibilitySystem;
    let mut events: Vec<Event> = Vec::new();

    let mut state = State::new();
    state.game_state = GameState::MainMenu;
    vis.update_state(&no_input(), &mut state, &mut events);
    assert_eq!(
        flags(&state),
        [false, false, false, false, false, true, true, true, false]
    );

    state.game_state = GameState::Serving;
    vis.update_state(&no_input(), &mut state, &mut events);
    assert_eq!(
        flags(&state),
        [true, true, true, true, true, false, false, false, false]
    );

    state.game_state = GameState::Playing;
    vis.update_state(&no_input(), &mut state, &mut events);
    assert_eq!(
        flags(&state),
        [true, true, true, true, true, false, false, false, false]
    );

    state.game_state = GameState::GameOver;
    vis.update_state(&no_input(), &mut state, &mut events);
    assert_eq!(
        flags(&state),
        [true, true, false, true, true, false, false, false, true]
    );

    state.game_state = GameState::Quitting;
    vis.update_state(&no_input(), &mut state, &mut events);
    assert_eq!(
        flags(&state),
        [false, false, false, false, false, false, false, false, false]
    );
    assert!(events.is_empty());
}

#[test]
fn menu_start_resets_match() {
    let mut state = State::new();
    state.player1.score = 7;
    state.player2.score = 3;
    state.player1.update_y_position(400);
    state.quit_button.set_focus(true);

    let mut menu = MenuSystem;
    menu.start(&mut state);
    assert_eq!(state.player1.score, 0);
    assert_eq!(state.player2.score, 0);
    assert_eq!(state.player1.position().y, 0);
    assert_eq!(state.player2.position().y, 0);
    assert!(state.play_button.focused());
    assert!(!state.quit_button.focused());
}

#[test]
fn menu_focus_moves_down_and_up() {
    let mut state = State::new();
    let mut menu = MenuSystem;
    menu.start(&mut state);
    let mut events: Vec<Event> = Vec::new();

    let mut down = Input::new();
    down.p1_down_pressed = true;
    menu.update_state(&down, &mut state, &mut events);
    assert!(!state.play_button.focused());
    assert!(state.quit_button.focused());
    assert_eq!(events, vec![Event::FocusChanged]);

    let mut up = Input::new();
    up.p2_up_pressed = true;
    events.clear();
    menu.update_state(&up, &mut state, &mut events);
    assert!(state.play_button.focused());
    assert!(!state.quit_button.focused());
    assert_eq!(events, vec![Event::FocusChanged]);
}

#[test]
fn menu_focus_move_excludes_confirm() {
    // A focus move and a confirmation are mutually exclusive in one tick:
    // pressing down and enter together only moves the focus.
    let mut state = State::new();
    let mut menu = MenuSystem;
    menu.start(&mut state);
    let mut events: Vec<Event> = Vec::new();

    let mut both = Input::new();
    both.p1_down_pressed = true;
    both.enter_pressed = true;
    menu.update_state(&both, &mut state, &mut events);
    assert_eq!(state.game_state, GameState::MainMenu);
    assert!(state.quit_button.focused());
    assert_eq!(events, vec![Event::FocusChanged]);
}

#[test]
fn menu_confirm_quit() {
    let mut state = State::new();
    let mut menu = MenuSystem;
    menu.start(&mut state);
    state.play_button.set_focus(false);
    state.quit_button.set_focus(true);
    let mut events: Vec<Event> = Vec::new();

    let mut enter = Input::new();
    enter.enter_pressed = true;
    menu.update_state(&enter, &mut state, &mut events);
    assert_eq!(state.game_state, GameState::Quitting);
    assert_eq!(events, vec![Event::ButtonPressed]);
}

#[test]
fn paddle_clamps_at_top_after_twenty_up_ticks() {
    // Paddle at y=0, height 0.4 of the field; 20 ticks of held "up" at
    // PLAYER_SPEED end clamped at 1 - 0.2, i.e. 800 fixed-point steps.
    let mut state = State::new();
    let play = PlaySystem;
    let mut events: Vec<Event> = Vec::new();
    let mut input = Input::new();
    input.p1_up_pressed = true;

    assert_eq!(state.player1.position().y, 0);
    assert_eq!(state.player1.size().y, 400);
    for _ in 0..20 {
        play.update_state(&input, &mut state, &mut events);
    }
    assert_eq!(state.player1.position().y, 800);
    assert_eq!(state.player2.position().y, 0);
}

#[test]
fn paddle_clamps_at_bottom() {
    let mut state = State::new();
    let play = PlaySystem;
    let mut events: Vec<Event> = Vec::new();
    let mut input = Input::new();
    input.p2_down_pressed = true;
    for _ in 0..25 {
        play.update_state(&input, &mut state, &mut events);
    }
    assert_eq!(state.player2.position().y, -800);
}

#[test]
fn paddle_up_and_down_cancel() {
    let mut state = State::new();
    let play = PlaySystem;
    let mut events: Vec<Event> = Vec::new();
    let mut input = Input::new();
    input.p1_up_pressed = true;
    input.p1_down_pressed = true;
    play.update_state(&input, &mut state, &mut events);
    assert_eq!(state.player1.position().y, 0);
}

#[test]
fn ball_tick_scores_for_player1_past_right_boundary() {
    // Playing phase, ball already past the boundary at x=1.01: one physics
    // tick increments player1's score, queues Score(0), and returns to
    // Serving.
    let mut state = State::new();
    state.game_state = GameState::Playing;
    state.ball.update_position(Vec2::new(1010, 0));
    state.ball.velocity = Vec2::new(25, 0);
    let ball_system = BallSystem;
    let mut events: Vec<Event> = Vec::new();

    ball_system.update_state(&no_input(), &mut state, &mut events);
    assert_eq!(state.player1.score, 1);
    assert_eq!(state.player2.score, 0);
    assert_eq!(state.game_state, GameState::Serving);
    assert_eq!(events, vec![Event::Score(0)]);
}

#[test]
fn ball_tick_scores_for_player2_past_left_boundary() {
    let mut state = State::new();
    state.game_state = GameState::Playing;
    state.ball.update_position(Vec2::new(-1010, 0));
    state.ball.velocity = Vec2::new(-25, 0);
    let ball_system = BallSystem;
    let mut events: Vec<Event> = Vec::new();

    ball_system.update_state(&no_input(), &mut state, &mut events);
    assert_eq!(state.player1.score, 0);
    assert_eq!(state.player2.score, 1);
    assert_eq!(state.game_state, GameState::Serving);
    assert_eq!(events, vec![Event::Score(1)]);
}

#[test]
fn ball_bounces_off_top_wall() {
    let mut state = State::new();
    state.game_state = GameState::Playing;
    state.ball.update_position(Vec2::new(0, 990));
    state.ball.velocity = Vec2::new(0, 25);
    let ball_system = BallSystem;
    let mut events: Vec<Event> = Vec::new();

    ball_system.update_state(&no_input(), &mut state, &mut events);
    assert_eq!(state.ball.position(), Vec2::new(0, 1000));
    assert_eq!(state.ball.velocity, Vec2::new(0, -25));
    assert_eq!(events, vec![Event::BallBounce(Vec2::new(0, 1015))]);
}

#[test]
fn ball_bounces_off_bottom_wall() {
    let mut state = State::new();
    state.game_state = GameState::Playing;
    state.ball.update_position(Vec2::new(100, -990));
    state.ball.velocity = Vec2::new(7, -24);
    let ball_system = BallSystem;
    let mut events: Vec<Event> = Vec::new();

    ball_system.update_state(&no_input(), &mut state, &mut events);
    assert_eq!(state.ball.position(), Vec2::new(107, -1000));
    assert_eq!(state.ball.velocity, Vec2::new(7, 24));
    assert_eq!(events, vec![Event::BallBounce(Vec2::new(107, -1014))]);
}

#[test]
fn ball_bounce_off_left_paddle_keeps_speed() {
    // The ball overlaps player1 100 steps above its center: the deflection
    // picks the 24-7-25 direction, away from the left side, and the speed
    // stays exactly BALL_SPEED.
    let mut state = State::new();
    state.game_state = GameState::Playing;
    state.ball.update_position(Vec2::new(-740, 100));
    state.ball.velocity = Vec2::new(-25, 0);
    let ball_system = BallSystem;
    let mut events: Vec<Event> = Vec::new();

    ball_system.update_state(&no_input(), &mut state, &mut events);
    // Nudge: -740 - (-25 - 50) = -665; then one Euler step of (24, 7).
    assert_eq!(state.ball.velocity, Vec2::new(24, 7));
    assert_eq!(state.ball.position(), Vec2::new(-641, 107));
    assert_eq!(
        state.ball.velocity.x * state.ball.velocity.x
            + state.ball.velocity.y * state.ball.velocity.y,
        625
    );
    assert_eq!(events, vec![Event::BallBounce(Vec2::new(-740, 100))]);
}

#[test]
fn ball_bounce_off_right_paddle_moves_left() {
    let mut state = State::new();
    state.game_state = GameState::Playing;
    state.ball.update_position(Vec2::new(740, -50));
    state.ball.velocity = Vec2::new(25, 0);
    let ball_system = BallSystem;
    let mut events: Vec<Event> = Vec::new();

    ball_system.update_state(&no_input(), &mut state, &mut events);
    // Strike 50 below center: ratio 62, flat bucket; nudge 740 - 75 = 665.
    assert_eq!(state.ball.velocity, Vec2::new(-25, 0));
    assert_eq!(state.ball.position(), Vec2::new(640, -50));
    assert_eq!(events, vec![Event::BallBounce(Vec2::new(740, -50))]);
}

#[test]
fn deflection_table_is_monotone_and_on_circle() {
    let mut state = State::new();
    state.ball.update_position(Vec2::new(-740, 0));
    // Strike offsets and the expected outgoing velocities off the left
    // paddle (height 400): ratio buckets 0, 181, 410, 590, 819, 1000
    // thousandths of a quarter turn.
    let cases = [
        (0, (25, 0)),
        (50, (25, 0)),      // ratio 62
        (100, (24, 7)),     // ratio 125
        (150, (24, 7)),     // ratio 187
        (250, (20, 15)),    // ratio 312
        (-250, (20, -15)),
        (-100, (24, -7)),
    ];
    for (offset, expected) in cases {
        state.ball.update_position(Vec2::new(-740, offset));
        let v = calc_ball_velocity(&state.ball, &state.player1);
        assert_eq!((v.x, v.y), expected);
        assert_eq!(v.x * v.x + v.y * v.y, 625);
    }
}

#[test]
fn serve_direction_alternates_with_exit_side() {
    // Ball went out on the right (player1 scored): the serve moves in the
    // negative-x direction; and the other way around.
    let mut serving = ServingSystem::new();

    let mut state = State::new();
    state.ball.update_position(Vec2::new(1050, 0));
    serving.start(&mut state, 0);
    assert_eq!(state.ball.velocity, Vec2::new(-25, 0));
    assert_eq!(state.ball.position(), Vec2::new(0, 0));

    let mut state = State::new();
    state.ball.update_position(Vec2::new(-1050, 0));
    serving.start(&mut state, 0);
    assert_eq!(state.ball.velocity, Vec2::new(25, 0));

    // A previous position of exactly zero counts as positive.
    let mut state = State::new();
    serving.start(&mut state, 0);
    assert_eq!(state.ball.velocity, Vec2::new(-25, 0));
}

#[test]
fn serve_refreshes_score_labels() {
    let mut serving = ServingSystem::new();
    let mut state = State::new();
    state.player1.score = 12;
    state.player2.score = 305;
    serving.start(&mut state, 500);
    assert_eq!(state.player1_score.text, "12");
    assert_eq!(state.player2_score.text, "305");
    assert_eq!(serving.last_time, 500);
}

#[test]
fn serving_waits_out_the_delay() {
    let mut serving = ServingSystem::new();
    let mut state = State::new();
    state.game_state = GameState::Serving;
    serving.start(&mut state, 1000);

    serving.update_state(&no_input(), &mut state, 3000);
    assert_eq!(state.game_state, GameState::Serving);
    serving.update_state(&no_input(), &mut state, 3001);
    assert_eq!(state.game_state, GameState::Playing);
}

#[test]
fn game_over_names_the_winner() {
    let mut over = GameOverSystem::new();

    let mut state = State::new();
    state.player1.score = 5;
    state.player2.score = 3;
    over.start(&mut state, 0);
    assert_eq!(state.win_text.text, "Player 1 wins!");
    assert_eq!(state.player1_score.text, "5");
    assert_eq!(state.player2_score.text, "3");

    let mut state = State::new();
    state.player1.score = 2;
    state.player2.score = 6;
    over.start(&mut state, 0);
    assert_eq!(state.win_text.text, "Player 2 wins!");

    // An exact tie is announced as a win for player 2.
    let mut state = State::new();
    state.player1.score = 4;
    state.player2.score = 4;
    over.start(&mut state, 0);
    assert_eq!(state.win_text.text, "Player 2 wins!");
}

#[test]
fn game_over_returns_to_menu_after_delay() {
    let mut over = GameOverSystem::new();
    let mut state = State::new();
    state.game_state = GameState::GameOver;
    over.start(&mut state, 2000);

    over.update_state(&no_input(), &mut state, 3000);
    assert_eq!(state.game_state, GameState::GameOver);
    over.update_state(&no_input(), &mut state, 3001);
    assert_eq!(state.game_state, GameState::MainMenu);
}

#[test]
fn paddle_contains_matches_overlap() {
    let mut state = State::new();
    // Player1 center (-800, 0), half extents (25, 200); ball radius 50.
    state.ball.update_position(Vec2::new(-740, 100));
    assert!(state.player1.contains(&state.ball));
    state.ball.update_position(Vec2::new(-740, 249));
    assert!(state.player1.contains(&state.ball));
    state.ball.update_position(Vec2::new(-740, 250));
    assert!(!state.player1.contains(&state.ball));
    state.ball.update_position(Vec2::new(-874, 0));
    assert!(state.player1.contains(&state.ball));
    state.ball.update_position(Vec2::new(-875, 0));
    assert!(!state.player1.contains(&state.ball));
    state.ball.update_position(Vec2::new(0, 0));
    assert!(!state.player1.contains(&state.ball));

    let ball = Ball::new(Vec2::new(790, 0), 50);
    let player2 = Player::new(Vec2::new(800, 0), Vec2::new(50, 400));
    assert!(player2.contains(&ball));
}
