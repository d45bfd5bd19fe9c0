//! The ball: spawning data, collision-driven scoring, and sound cues.

use vstd::prelude::*;
use rand::Rng;

use crate::audio::SfxRequestEvent;
use crate::component::{Body, CollisionStarted, Dir, Goal, Speed, Velocity};
use crate::frac::Pos;
use crate::player::Scores;

verus! {

pub const DEFAULT_BALL_RADIUS: u32 = 5;

pub const DEFAULT_BALL_SPEED: u32 = 300;

/// The ball: a single dynamic body, created once, repositioned (never
/// recreated) when a goal is scored.
#[derive(Clone, Copy, Debug)]
pub struct Ball {
    pub pos: Pos,
    pub vel: Velocity,
    pub speed: Speed,
    pub radius: u32,
}

impl Ball {
    pub open spec fn wf(self) -> bool {
        self.pos.wf() && self.vel.wf()
    }
}

/// A heading points at one of the four 45-degree corners.
pub open spec fn is_diagonal(d: Dir) -> bool {
    (d.x == 1 || d.x == -1) && (d.y == 1 || d.y == -1)
}

/// The diagonal headings, in the order the random draw indexes them.
pub open spec fn spec_diagonal(i: int) -> Dir {
    if i == 0 {
        Dir { x: (-1) as i64, y: 1 }
    } else if i == 1 {
        Dir { x: 1, y: 1 }
    } else if i == 2 {
        Dir { x: 1, y: (-1) as i64 }
    } else {
        Dir { x: (-1) as i64, y: (-1) as i64 }
    }
}

/// Relies on `rand::Rng::gen_range` on `rand::thread_rng()`: a sample drawn
/// from the non-empty range `0..4` lies below 4 and the call does not panic.
/// Nothing more is promised of a random draw.
#[verifier::external_body]
fn sample_quadrant() -> (r: u32)
    ensures
        r < 4,
{
    rand::thread_rng().gen_range(0..4u32)
}

/// The diagonal heading a draw selects.
pub fn diagonal(i: u32) -> (d: Dir)
    requires
        i < 4,
    ensures
        d == spec_diagonal(i as int),
        is_diagonal(d),
{
    match i {
        0u32 => Dir { x: -1, y: 1 },
        1u32 => Dir { x: 1, y: 1 },
        2u32 => Dir { x: 1, y: -1 },
        _ => Dir { x: -1, y: -1 },
    }
}

/// A heading drawn uniformly from the four 45-degree corners.
pub fn random_direction() -> (d: Dir)
    ensures
        is_diagonal(d),
{
    let i = sample_quadrant();
    diagonal(i)
}

/// The ball at startup: at the field center, heading for a random corner at
/// its assigned speed.
pub fn spawn_ball() -> (b: Ball)
    ensures
        b.pos == Pos::spec_origin(),
        is_diagonal(b.vel.dir),
        b.vel.mag == DEFAULT_BALL_SPEED,
        b.speed.0 == DEFAULT_BALL_SPEED,
        b.vel.locked_to(b.speed),
        b.radius == DEFAULT_BALL_RADIUS,
        b.wf(),
{
    Ball {
        pos: Pos::origin(),
        vel: Velocity { dir: random_direction(), mag: DEFAULT_BALL_SPEED },
        speed: Speed(DEFAULT_BALL_SPEED),
        radius: DEFAULT_BALL_RADIUS,
    }
}

/// The event reports the ball entering the goal `g`: the sensor-flagged goal
/// is the first participant and the ball the second.
///
/// The collision engine orders the participants of each event; contacts
/// reported with the ball first are not matched, mirroring that ordering.
pub open spec fn is_goal_score_event(e: CollisionStarted, g: Goal) -> bool {
    e.sensor && e.first == Body::Goal(g) && e.second == Body::Ball
}

/// How many of the events score for the left side (ball into the right goal).
pub open spec fn left_score_delta(evs: Seq<CollisionStarted>) -> nat
    decreases evs.len(),
{
    if evs.len() == 0 {
        0
    } else {
        (if is_goal_score_event(evs[0], Goal::Right) {
            1 as nat
        } else {
            0 as nat
        }) + left_score_delta(evs.drop_first())
    }
}

/// How many of the events score for the right side (ball into the left goal).
pub open spec fn right_score_delta(evs: Seq<CollisionStarted>) -> nat
    decreases evs.len(),
{
    if evs.len() == 0 {
        0
    } else {
        (if is_goal_score_event(evs[0], Goal::Left) {
            1 as nat
        } else {
            0 as nat
        }) + right_score_delta(evs.drop_first())
    }
}

/// Count this tick's qualifying score events for each side, so a caller can
/// test the counters' headroom before handing the events to the scoring rule.
#[verifier::loop_isolation(false)]
pub fn score_deltas(events: &Vec<CollisionStarted>) -> (r: (usize, usize))
    ensures
        r.0 == left_score_delta(events@),
        r.1 == right_score_delta(events@),
{
    let ghost evs = events@;
    let mut left_count: usize = 0;
    let mut right_count: usize = 0;
    let mut idx: usize = 0;
    proof {
        assert(evs.skip(0) =~= evs);
    }
    while idx < events.len()
        invariant
            idx <= events.len(),
            left_count <= idx,
            right_count <= idx,
            left_count + left_score_delta(evs.skip(idx as int)) == left_score_delta(evs),
            right_count + right_score_delta(evs.skip(idx as int)) == right_score_delta(evs),
        decreases events.len() - idx,
    {
        proof {
            assert(evs.skip(idx as int).drop_first() =~= evs.skip(idx as int + 1));
        }
        let ev = events[idx];
        if ev.sensor && ev.second == Body::Ball {
            match ev.first {
                Body::Goal(Goal::Left) => {
                    right_count = right_count + 1;
                },
                Body::Goal(Goal::Right) => {
                    left_count = left_count + 1;
                },
                _ => {},
            }
        }
        idx = idx + 1;
    }
    proof {
        assert(evs.skip(events@.len() as int) =~= Seq::<CollisionStarted>::empty());
    }
    (left_count, right_count)
}

/// Consume this tick's collision-start events: each qualifying event credits
/// the side opposite the scoring goal and "respawns" the ball at the center
/// with a fresh random diagonal heading at its assigned speed.
#[verifier::loop_isolation(false)]
pub fn handle_scoring(ball: &mut Ball, scores: &mut Scores, events: &Vec<CollisionStarted>)
    requires
        old(scores).left + left_score_delta(events@) <= u32::MAX,
        old(scores).right + right_score_delta(events@) <= u32::MAX,
    ensures
        final(scores).left == old(scores).left + left_score_delta(events@),
        final(scores).right == old(scores).right + right_score_delta(events@),
        left_score_delta(events@) + right_score_delta(events@) == 0 ==> *final(ball) == *old(
            ball,
        ),
        left_score_delta(events@) + right_score_delta(events@) > 0 ==> final(ball).pos
            == Pos::spec_origin() && is_diagonal(final(ball).vel.dir) && final(ball).vel.mag == old(
            ball,
        ).speed.0,
        final(ball).speed == old(ball).speed,
        final(ball).radius == old(ball).radius,
        final(ball).vel.locked_to(final(ball).speed) || *final(ball) == *old(ball),
{
    let ghost evs = events@;
    let ghost mut scored: bool = false;
    let mut idx: usize = 0;
    proof {
        assert(evs.skip(0) =~= evs);
    }
    while idx < events.len()
        invariant
            idx <= events.len(),
            old(scores).left + left_score_delta(evs) == scores.left + left_score_delta(
                evs.skip(idx as int),
            ),
            old(scores).right + right_score_delta(evs) == scores.right + right_score_delta(
                evs.skip(idx as int),
            ),
            !scored ==> *ball == *old(ball),
            scored ==> ball.pos == Pos::spec_origin() && is_diagonal(ball.vel.dir) && ball.vel.mag
                == old(ball).speed.0,
            ball.speed == old(ball).speed,
            ball.radius == old(ball).radius,
            scored ==> left_score_delta(evs) + right_score_delta(evs) > 0,
            scored || left_score_delta(evs.skip(idx as int)) + right_score_delta(
                evs.skip(idx as int),
            ) == left_score_delta(evs) + right_score_delta(evs),
        decreases events.len() - idx,
    {
        proof {
            assert(evs.skip(idx as int).drop_first() =~= evs.skip(idx as int + 1));
        }
        let ev = events[idx];
        if ev.sensor && ev.second == Body::Ball {
            match ev.first {
                Body::Goal(Goal::Left) => {
                    scores.right = scores.right + 1;
                    ball.pos = Pos::origin();
                    ball.vel = Velocity { dir: random_direction(), mag: ball.speed.0 };
                    proof {
                        scored = true;
                    }
                },
                Body::Goal(Goal::Right) => {
                    scores.left = scores.left + 1;
                    ball.pos = Pos::origin();
                    ball.vel = Velocity { dir: random_direction(), mag: ball.speed.0 };
                    proof {
                        scored = true;
                    }
                },
                _ => {},
            }
        }
        idx = idx + 1;
    }
    proof {
        assert(evs.skip(events@.len() as int) =~= Seq::<CollisionStarted>::empty());
    }
}

/// The cue one collision-start event asks for: a "score" cue if either
/// participant is a goal, a "bounce" cue otherwise. Unlike the scoring rule,
/// this reads both participants, unordered.
pub open spec fn cue_for(e: CollisionStarted) -> SfxRequestEvent {
    if e.first is Goal || e.second is Goal {
        SfxRequestEvent::Score
    } else {
        SfxRequestEvent::Bounce
    }
}

fn involves_goal(e: &CollisionStarted) -> (r: bool)
    ensures
        r == (e.first is Goal || e.second is Goal),
{
    let a = match e.first {
        Body::Goal(_) => true,
        _ => false,
    };
    let b = match e.second {
        Body::Goal(_) => true,
        _ => false,
    };
    a || b
}

/// Request exactly one sound cue per collision-start event.
#[verifier::loop_isolation(false)]
pub fn play_sfx_on_contact(events: &Vec<CollisionStarted>) -> (cues: Vec<SfxRequestEvent>)
    ensures
        cues@.len() == events@.len(),
        forall|i: int| 0 <= i < events@.len() ==> cues@[i] == cue_for(events@[i]),
{
    let mut cues: Vec<SfxRequestEvent> = Vec::new();
    let mut idx: usize = 0;
    while idx < events.len()
        invariant
            idx <= events.len(),
            cues@.len() == idx,
            forall|i: int| 0 <= i < idx ==> cues@[i] == cue_for(events@[i]),
        decreases events.len() - idx,
    {
        let cue = if involves_goal(&events[idx]) {
            SfxRequestEvent::Score
        } else {
            SfxRequestEvent::Bounce
        };
        cues.push(cue);
        idx = idx + 1;
    }
    cues
}

} // verus!
