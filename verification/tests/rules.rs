//! Scoring, sound-cue, input and speed-alignment rules on concrete values.

use pong::audio::SfxRequestEvent;
use pong::ball::{diagonal, handle_scoring, play_sfx_on_contact, random_direction, spawn_ball, Ball};
use pong::component::{Body, Bound, CollisionStarted, Dir, Goal, Side, Speed, Velocity};
use pong::frac::{Frac, Pos};
use pong::physics::align_velocity_to_speed;
use pong::player::{handle_player_input, Player, Scores};

fn fixed_ball() -> Ball {
    Ball {
        pos: Pos { x: Frac { num: 7, den: 2 }, y: Frac { num: -3, den: 1 } },
        vel: Velocity { dir: Dir { x: 1, y: 1 }, mag: 300 },
        speed: Speed(300),
        radius: 5,
    }
}

fn goal_event(g: Goal) -> CollisionStarted {
    CollisionStarted { first: Body::Goal(g), second: Body::Ball, sensor: true }
}

fn is_diagonal(d: Dir) -> bool {
    (d.x == 1 || d.x == -1) && (d.y == 1 || d.y == -1)
}

#[test]
fn left_goal_scores_for_right() {
    let mut ball = fixed_ball();
    let mut scores = Scores { left: 0, right: 0 };
    let events = vec![goal_event(Goal::Left)];
    handle_scoring(&mut ball, &mut scores, &events);
    assert_eq!(scores.right, 1);
    assert_eq!(scores.left, 0);
    assert_eq!(ball.pos, Pos { x: Frac { num: 0, den: 1 }, y: Frac { num: 0, den: 1 } });
    assert!(is_diagonal(ball.vel.dir));
    assert_eq!(ball.vel.mag, 300);
    assert_eq!(ball.speed, Speed(300));
}

#[test]
fn right_goal_scores_for_left() {
    let mut ball = fixed_ball();
    let mut scores = Scores { left: 4, right: 9 };
    let events = vec![goal_event(Goal::Right)];
    handle_scoring(&mut ball, &mut scores, &events);
    assert_eq!(scores.left, 5);
    assert_eq!(scores.right, 9);
}

#[test]
fn ball_listed_first_does_not_score() {
    // The collision engine orders the participants; only sensor-first
    // contacts are matched.
    let mut ball = fixed_ball();
    let before = fixed_ball();
    let mut scores = Scores { left: 0, right: 0 };
    let events = vec![CollisionStarted {
        first: Body::Ball,
        second: Body::Goal(Goal::Left),
        sensor: true,
    }];
    handle_scoring(&mut ball, &mut scores, &events);
    assert_eq!(scores, Scores { left: 0, right: 0 });
    assert_eq!(ball.pos, before.pos);
    assert_eq!(ball.vel, before.vel);
}

#[test]
fn non_sensor_contact_does_not_score() {
    let mut ball = fixed_ball();
    let mut scores = Scores { left: 0, right: 0 };
    let events = vec![CollisionStarted {
        first: Body::Goal(Goal::Left),
        second: Body::Ball,
        sensor: false,
    }];
    handle_scoring(&mut ball, &mut scores, &events);
    assert_eq!(scores, Scores { left: 0, right: 0 });
}

#[test]
fn two_goal_events_score_twice() {
    let mut ball = fixed_ball();
    let mut scores = Scores { left: 0, right: 0 };
    let events = vec![goal_event(Goal::Left), goal_event(Goal::Left)];
    handle_scoring(&mut ball, &mut scores, &events);
    assert_eq!(scores.right, 2);
    assert_eq!(scores.left, 0);
}

#[test]
fn bounce_cue_for_wall_contact() {
    let events = vec![CollisionStarted {
        first: Body::Ball,
        second: Body::Bound(Bound::Top),
        sensor: false,
    }];
    let cues = play_sfx_on_contact(&events);
    assert_eq!(cues, vec![SfxRequestEvent::Bounce]);
}

#[test]
fn score_cue_for_goal_contact() {
    let events = vec![CollisionStarted {
        first: Body::Ball,
        second: Body::Goal(Goal::Right),
        sensor: true,
    }];
    let cues = play_sfx_on_contact(&events);
    assert_eq!(cues, vec![SfxRequestEvent::Score]);
}

#[test]
fn one_cue_per_event_in_order() {
    let events = vec![
        CollisionStarted { first: Body::Goal(Goal::Left), second: Body::Ball, sensor: true },
        CollisionStarted { first: Body::Ball, second: Body::Paddle(Side::Left), sensor: false },
        CollisionStarted { first: Body::Ball, second: Body::Bound(Bound::Bottom), sensor: false },
    ];
    let cues = play_sfx_on_contact(&events);
    assert_eq!(
        cues,
        vec![SfxRequestEvent::Score, SfxRequestEvent::Bounce, SfxRequestEvent::Bounce]
    );
}

fn paddle() -> Player {
    Player {
        pos: Pos { x: Frac { num: -800, den: 3 }, y: Frac { num: 0, den: 1 } },
        vel: Velocity { dir: Dir { x: 0, y: 0 }, mag: 0 },
        speed: Speed(1000),
        half_width: 5,
        half_height: 20,
    }
}

#[test]
fn up_held_drives_up_at_speed() {
    let mut p = paddle();
    handle_player_input(&mut p, true, false);
    assert_eq!(p.vel, Velocity { dir: Dir { x: 0, y: 1 }, mag: 1000 });
}

#[test]
fn down_held_drives_down_at_speed() {
    let mut p = paddle();
    handle_player_input(&mut p, false, true);
    assert_eq!(p.vel, Velocity { dir: Dir { x: 0, y: -1 }, mag: 1000 });
}

#[test]
fn both_keys_held_rests() {
    let mut p = paddle();
    p.vel = Velocity { dir: Dir { x: 0, y: 1 }, mag: 1000 };
    handle_player_input(&mut p, true, true);
    assert_eq!(p.vel, Velocity { dir: Dir { x: 0, y: 0 }, mag: 0 });
}

#[test]
fn neither_key_held_rests() {
    let mut p = paddle();
    p.vel = Velocity { dir: Dir { x: 0, y: -1 }, mag: 1000 };
    handle_player_input(&mut p, false, false);
    assert_eq!(p.vel, Velocity { dir: Dir { x: 0, y: 0 }, mag: 0 });
}

#[test]
fn alignment_locks_magnitude_and_keeps_direction() {
    let mut v = Velocity { dir: Dir { x: 3, y: -4 }, mag: 77 };
    align_velocity_to_speed(&mut v, Speed(300));
    assert_eq!(v, Velocity { dir: Dir { x: 3, y: -4 }, mag: 300 });
}

#[test]
fn alignment_keeps_rest_at_rest() {
    let mut v = Velocity { dir: Dir { x: 0, y: 0 }, mag: 0 };
    align_velocity_to_speed(&mut v, Speed(300));
    assert_eq!(v, Velocity { dir: Dir { x: 0, y: 0 }, mag: 0 });
}

#[test]
fn diagonal_table_matches_draws() {
    assert_eq!(diagonal(0), Dir { x: -1, y: 1 });
    assert_eq!(diagonal(1), Dir { x: 1, y: 1 });
    assert_eq!(diagonal(2), Dir { x: 1, y: -1 });
    assert_eq!(diagonal(3), Dir { x: -1, y: -1 });
}

#[test]
fn random_direction_is_diagonal() {
    for _ in 0..64 {
        assert!(is_diagonal(random_direction()));
    }
}

#[test]
fn spawned_ball_starts_centered_at_speed() {
    let b = spawn_ball();
    assert_eq!(b.pos, Pos { x: Frac { num: 0, den: 1 }, y: Frac { num: 0, den: 1 } });
    assert!(is_diagonal(b.vel.dir));
    assert_eq!(b.vel.mag, 300);
    assert_eq!(b.speed, Speed(300));
    assert_eq!(b.radius, 5);
}
