//! Window-resize rescaling, the score-display text, and whole ticks.

use pong::audio::SfxRequestEvent;
use pong::component::{Body, CollisionStarted, Goal, ScoreText, WindowResized};
use pong::field::{resize_bounds_with_window, spawn_bounds, Extent, Zone};
use pong::frac::{Frac, Pos};
use pong::game::{handle_window_resize, tick, GameState, InputState};
use pong::player::{decimal_string, update_score_text_on_scoring, ScoreDisplay, Scores};

fn no_input() -> InputState {
    InputState { left_up: false, left_down: false, right_up: false, right_down: false }
}

#[test]
fn resize_to_cached_size_changes_nothing() {
    let mut s = GameState::new(800, 600);
    let before = s.clone();
    handle_window_resize(&mut s, &WindowResized { width: 800, height: 600 });
    assert_eq!(s.top_bound, before.top_bound);
    assert_eq!(s.bottom_bound, before.bottom_bound);
    assert_eq!(s.left_goal, before.left_goal);
    assert_eq!(s.right_goal, before.right_goal);
    assert_eq!(s.last_size, before.last_size);
    assert!(s.left_player.pos.same_value(&before.left_player.pos));
    assert!(s.right_player.pos.same_value(&before.right_player.pos));
    assert!(s.left_text.pos.same_value(&before.left_text.pos));
    assert!(s.right_text.pos.same_value(&before.right_text.pos));
}

#[test]
fn doubling_width_doubles_x_and_keeps_y() {
    let mut s = GameState::new(800, 600);
    // Spawn puts the left paddle at -800/3, about -266.67.
    assert!(s.left_player.pos.x.same_value(&Frac { num: -800, den: 3 }));
    // Spawn puts the left goal at -800/2 == -400.
    assert!(s.left_goal.pos.x.same_value(&Frac { num: -400, den: 1 }));
    handle_window_resize(&mut s, &WindowResized { width: 1600, height: 600 });
    // Same window-relative ratio: -1600/3, about -533.33.
    assert!(s.left_player.pos.x.same_value(&Frac { num: -1600, den: 3 }));
    assert!(s.left_player.pos.y.same_value(&Frac { num: 0, den: 1 }));
    assert!(s.left_goal.pos.x.same_value(&Frac { num: -800, den: 1 }));
    assert_eq!(s.last_size.width, 1600);
    assert_eq!(s.last_size.height, 600);
}

#[test]
fn queued_resizes_apply_in_order_with_incremental_basis() {
    let mut s = GameState::new(800, 600);
    let resizes = vec![
        WindowResized { width: 1600, height: 600 },
        WindowResized { width: 400, height: 1200 },
    ];
    let cues = tick(&mut s, &no_input(), &vec![], &resizes);
    assert!(cues.is_empty());
    // x: -800/3 doubled, then quartered; y stays zero through both.
    assert!(s.left_player.pos.x.same_value(&Frac { num: -400, den: 3 }));
    assert!(s.left_player.pos.y.same_value(&Frac { num: 0, den: 1 }));
    // The rebuilt field follows the last event alone.
    assert!(s.top_bound.pos.y.same_value(&Frac { num: 600, den: 1 }));
    assert!(s.left_goal.pos.x.same_value(&Frac { num: -200, den: 1 }));
    assert_eq!(s.last_size, pong::player::LastWindowSize { width: 400, height: 1200 });
}

#[test]
fn resized_bounds_take_exact_extents() {
    let (mut top, mut bottom) = spawn_bounds(800, 600);
    resize_bounds_with_window(&mut top, &mut bottom, &WindowResized { width: 1000, height: 500 });
    assert_eq!(top.pos.y, Frac { num: 500, den: 2 });
    assert_eq!(bottom.pos.y, Frac { num: -500, den: 2 });
    let expected = Extent { hx: Frac { num: 1000, den: 2 }, hy: Frac { num: 1, den: 2 } };
    assert_eq!(top.half, expected);
    assert_eq!(bottom.half, expected);
}

#[test]
fn spawned_layout_matches_window() {
    let s = GameState::new(800, 600);
    assert_eq!(s.top_bound.pos.y, Frac { num: 600, den: 2 });
    assert_eq!(s.left_goal.pos.x, Frac { num: -800, den: 2 });
    assert_eq!(s.right_goal.pos.x, Frac { num: 800, den: 2 });
    assert!(s.left_text.pos.x.same_value(&Frac { num: -200, den: 1 }));
    assert!(s.left_text.pos.y.same_value(&Frac { num: 225, den: 1 }));
    assert_eq!(s.scores, Scores { left: 0, right: 0 });
    assert_eq!(s.left_text.value, "0");
    assert_eq!(s.right_text.value, "0");
}

#[test]
fn decimal_strings_are_exact() {
    assert_eq!(decimal_string(0), "0");
    assert_eq!(decimal_string(7), "7");
    assert_eq!(decimal_string(10), "10");
    assert_eq!(decimal_string(305), "305");
    assert_eq!(decimal_string(4294967295), "4294967295");
}

#[test]
fn refresh_mirrors_counter() {
    let mut text = ScoreDisplay {
        side: ScoreText::Right,
        pos: Pos { x: Frac { num: 200, den: 1 }, y: Frac { num: 225, den: 1 } },
        value: String::from("0"),
    };
    update_score_text_on_scoring(&mut text, &Scores { left: 3, right: 12 });
    assert_eq!(text.value, "12");
}

#[test]
fn scoring_tick_updates_text_and_locks_speed() {
    let mut s = GameState::new(800, 600);
    let collisions = vec![CollisionStarted {
        first: Body::Goal(Goal::Left),
        second: Body::Ball,
        sensor: true,
    }];
    let cues = tick(&mut s, &no_input(), &collisions, &vec![]);
    assert_eq!(cues, vec![SfxRequestEvent::Score]);
    assert_eq!(s.scores, Scores { left: 0, right: 1 });
    assert_eq!(s.left_text.value, "0");
    assert_eq!(s.right_text.value, "1");
    assert_eq!(s.ball.pos, Pos { x: Frac { num: 0, den: 1 }, y: Frac { num: 0, den: 1 } });
    assert_eq!(s.ball.vel.mag, 300);
    assert_eq!(s.left_player.vel.mag, 0);
}

#[test]
fn input_tick_drives_paddles() {
    let mut s = GameState::new(800, 600);
    let input = InputState { left_up: true, left_down: false, right_up: true, right_down: true };
    let cues = tick(&mut s, &input, &vec![], &vec![]);
    assert!(cues.is_empty());
    assert_eq!(s.left_player.vel.dir.y, 1);
    assert_eq!(s.left_player.vel.mag, 1000);
    assert_eq!(s.right_player.vel.mag, 0);
    assert_eq!(s.scores, Scores { left: 0, right: 0 });
}

#[test]
fn score_deltas_count_qualifying_events_only() {
    let events = vec![
        CollisionStarted { first: Body::Goal(Goal::Left), second: Body::Ball, sensor: true },
        CollisionStarted { first: Body::Goal(Goal::Right), second: Body::Ball, sensor: true },
        CollisionStarted { first: Body::Goal(Goal::Left), second: Body::Ball, sensor: false },
        CollisionStarted { first: Body::Ball, second: Body::Goal(Goal::Left), sensor: true },
    ];
    assert_eq!(pong::ball::score_deltas(&events), (1, 1));
}

#[test]
fn resize_feasibility_is_decided_exactly() {
    let mut s = GameState::new(800, 600);
    assert!(pong::game::can_apply_resizes(
        &s,
        &vec![WindowResized { width: 1600, height: 600 }]
    ));
    assert!(!pong::game::can_apply_resizes(&s, &vec![WindowResized { width: 0, height: 600 }]));
    // A coordinate already at the numerator limit cannot grow further.
    s.left_player.pos.x = Frac { num: i64::MAX, den: 1 };
    s.last_size = pong::player::LastWindowSize { width: 1, height: 1 };
    assert!(!pong::game::can_apply_resizes(&s, &vec![WindowResized { width: 2, height: 1 }]));
    assert!(pong::game::can_apply_resizes(&s, &vec![WindowResized { width: 1, height: 1 }]));
}

#[test]
fn scale_bounds_check_matches_overflow() {
    let f = Frac { num: i64::MAX, den: 1 };
    assert!(!f.can_scale_exec(2, 1));
    assert!(f.can_scale_exec(1, 1));
    let g = Frac { num: -3, den: 7 };
    assert!(g.can_scale_exec(1000, 3));
    assert!(!g.can_scale_exec(1000, 0));
}

#[test]
fn zone_fields_compose() {
    let z = Zone {
        pos: Pos { x: Frac { num: 0, den: 1 }, y: Frac { num: 300, den: 1 } },
        half: Extent { hx: Frac { num: 400, den: 1 }, hy: Frac { num: 1, den: 2 } },
    };
    assert!(z.pos.y.same_value(&Frac { num: 600, den: 2 }));
}
