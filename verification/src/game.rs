//! The simulation state and the per-tick composition of the rules.
//!
//! One tick reads the previous tick's committed state together with this
//! tick's drained event queues (collision starts, resize notifications) and
//! the held-key state, and produces the next state plus the sound-cue
//! requests. Within a tick the only ordering constraint is that every
//! consumer of the cached window size runs before the cache is overwritten;
//! speed alignment runs last and is idempotent.

use vstd::prelude::*;

use crate::audio::SfxRequestEvent;
use crate::ball;
use crate::ball::Ball;
use crate::component::{Bound, CollisionStarted, Goal, ScoreText, WindowResized};
use crate::field;
use crate::field::Zone;
use crate::frac::Pos;
use crate::physics;
use crate::player;
use crate::player::{LastWindowSize, Player, ScoreDisplay, Scores};

verus! {

/// The held/released state of the four bound keys, polled once per tick.
#[derive(Clone, Copy, PartialEq, Eq, Structural, Debug)]
pub struct InputState {
    pub left_up: bool,
    pub left_down: bool,
    pub right_up: bool,
    pub right_down: bool,
}

/// The whole simulation state: every field the rules read or write.
#[derive(Clone, Debug)]
pub struct GameState {
    pub ball: Ball,
    pub left_player: Player,
    pub right_player: Player,
    pub top_bound: Zone,
    pub bottom_bound: Zone,
    pub left_goal: Zone,
    pub right_goal: Zone,
    pub scores: Scores,
    pub left_text: ScoreDisplay,
    pub right_text: ScoreDisplay,
    pub last_size: LastWindowSize,
}

impl GameState {
    pub open spec fn wf(self) -> bool {
        &&& self.ball.wf()
        &&& self.left_player.wf()
        &&& self.right_player.wf()
        &&& self.top_bound.wf()
        &&& self.bottom_bound.wf()
        &&& self.left_goal.wf()
        &&& self.right_goal.wf()
        &&& self.left_text.wf()
        &&& self.right_text.wf()
        &&& self.left_text.side == ScoreText::Left
        &&& self.right_text.side == ScoreText::Right
        &&& self.last_size.wf()
    }

    /// The static field bodies stand where a resize to the cached window
    /// size would put them.
    pub open spec fn field_consistent(self) -> bool {
        &&& field::bound_placed(
            self.top_bound,
            Bound::Top,
            self.last_size.width,
            self.last_size.height,
        )
        &&& field::bound_placed(
            self.bottom_bound,
            Bound::Bottom,
            self.last_size.width,
            self.last_size.height,
        )
        &&& field::goal_placed(
            self.left_goal,
            Goal::Left,
            self.last_size.width,
            self.last_size.height,
        )
        &&& field::goal_placed(
            self.right_goal,
            Goal::Right,
            self.last_size.width,
            self.last_size.height,
        )
    }

    /// Every speed-bearing body's velocity magnitude equals its assigned
    /// speed, unless the body is at rest.
    pub open spec fn speed_locked(self) -> bool {
        &&& self.ball.vel.locked_to(self.ball.speed)
        &&& self.left_player.vel.locked_to(self.left_player.speed)
        &&& self.right_player.vel.locked_to(self.right_player.speed)
    }

    /// Each score display shows the decimal string of its counter.
    pub open spec fn texts_mirror(self) -> bool {
        player::mirrors(self.left_text, self.scores) && player::mirrors(
            self.right_text,
            self.scores,
        )
    }

    /// The state at startup, for the given primary-window dimensions.
    pub fn new(width: u32, height: u32) -> (s: GameState)
        requires
            width > 0,
            height > 0,
        ensures
            s.wf(),
            s.field_consistent(),
            s.speed_locked(),
            s.texts_mirror(),
            s.scores == (Scores { left: 0, right: 0 }),
            s.last_size == (LastWindowSize { width, height }),
            s.ball.pos == Pos::spec_origin(),
            ball::is_diagonal(s.ball.vel.dir),
            s.ball.vel.mag == ball::DEFAULT_BALL_SPEED,
            s.ball.speed.0 == ball::DEFAULT_BALL_SPEED,
            s.left_player.pos.x.num == -(width as int) && s.left_player.pos.x.den == 3,
            s.right_player.pos.x.num == width as int && s.right_player.pos.x.den == 3,
            s.left_player.speed.0 == player::DEFAULT_PLAYER_SPEED,
            s.right_player.speed.0 == player::DEFAULT_PLAYER_SPEED,
    {
        let (left_player, right_player) = player::spawn_players(width, height);
        let (top_bound, bottom_bound) = field::spawn_bounds(width, height);
        let (left_goal, right_goal) = field::spawn_goals(width, height);
        let (left_text, right_text) = player::spawn_score_text(width, height);
        GameState {
            ball: ball::spawn_ball(),
            left_player,
            right_player,
            top_bound,
            bottom_bound,
            left_goal,
            right_goal,
            scores: Scores { left: 0, right: 0 },
            left_text,
            right_text,
            last_size: player::init_last_window_size(width, height),
        }
    }
}

/// One resize notification can be applied: positive new dimensions and every
/// proportional remap within machine bounds.
pub open spec fn resize_ok(s: GameState, ev: WindowResized) -> bool {
    &&& ev.width > 0
    &&& ev.height > 0
    &&& player::can_move(s.left_player.pos, s.last_size, ev)
    &&& player::can_move(s.right_player.pos, s.last_size, ev)
    &&& player::can_move(s.left_text.pos, s.last_size, ev)
    &&& player::can_move(s.right_text.pos, s.last_size, ev)
}

/// The state after one resize notification: bounds and goals rebuilt from
/// the new size, paddles and score displays remapped proportionally with the
/// cached size as basis, and the cache overwritten last.
pub open spec fn spec_resize_step(s: GameState, ev: WindowResized) -> GameState {
    GameState {
        ball: s.ball,
        left_player: Player {
            pos: player::spec_moved(s.left_player.pos, s.last_size, ev),
            vel: s.left_player.vel,
            speed: s.left_player.speed,
            half_width: s.left_player.half_width,
            half_height: s.left_player.half_height,
        },
        right_player: Player {
            pos: player::spec_moved(s.right_player.pos, s.last_size, ev),
            vel: s.right_player.vel,
            speed: s.right_player.speed,
            half_width: s.right_player.half_width,
            half_height: s.right_player.half_height,
        },
        top_bound: field::spec_bound_resized(s.top_bound, Bound::Top, ev),
        bottom_bound: field::spec_bound_resized(s.bottom_bound, Bound::Bottom, ev),
        left_goal: field::spec_goal_resized(s.left_goal, Goal::Left, ev),
        right_goal: field::spec_goal_resized(s.right_goal, Goal::Right, ev),
        scores: s.scores,
        left_text: ScoreDisplay {
            side: s.left_text.side,
            pos: player::spec_moved(s.left_text.pos, s.last_size, ev),
            value: s.left_text.value,
        },
        right_text: ScoreDisplay {
            side: s.right_text.side,
            pos: player::spec_moved(s.right_text.pos, s.last_size, ev),
            value: s.right_text.value,
        },
        last_size: LastWindowSize { width: ev.width, height: ev.height },
    }
}

/// Apply one resize notification: every consumer of the cached size runs
/// before the cache is overwritten.
pub fn handle_window_resize(s: &mut GameState, ev: &WindowResized)
    requires
        old(s).wf(),
        resize_ok(*old(s), *ev),
    ensures
        *final(s) == spec_resize_step(*old(s), *ev),
        final(s).wf(),
        final(s).field_consistent(),
{
    field::resize_bounds_with_window(&mut s.top_bound, &mut s.bottom_bound, ev);
    field::resize_goals_with_window(&mut s.left_goal, &mut s.right_goal, ev);
    player::move_players_with_window(&mut s.left_player, &mut s.right_player, &s.last_size, ev);
    player::move_score_text_with_window(&mut s.left_text, &mut s.right_text, &s.last_size, ev);
    player::update_last_window_size(&mut s.last_size, ev);
}

/// Every notification in the queue can be applied, in order, with the cache
/// updated incrementally between them.
pub open spec fn resizes_ok(s: GameState, evs: Seq<WindowResized>) -> bool
    decreases evs.len(),
{
    if evs.len() == 0 {
        true
    } else {
        resize_ok(s, evs[0]) && resizes_ok(spec_resize_step(s, evs[0]), evs.drop_first())
    }
}

/// The state after the whole queue of resize notifications, applied in order.
pub open spec fn spec_resizes(s: GameState, evs: Seq<WindowResized>) -> GameState
    decreases evs.len(),
{
    if evs.len() == 0 {
        s
    } else {
        spec_resizes(spec_resize_step(s, evs[0]), evs.drop_first())
    }
}

/// Resizing never touches the ball, the velocities, the scores, or the
/// display texts.
pub proof fn lemma_resizes_touch_layout_only(s: GameState, evs: Seq<WindowResized>)
    ensures
        spec_resizes(s, evs).ball == s.ball,
        spec_resizes(s, evs).scores == s.scores,
        spec_resizes(s, evs).left_player.vel == s.left_player.vel,
        spec_resizes(s, evs).right_player.vel == s.right_player.vel,
        spec_resizes(s, evs).left_player.speed == s.left_player.speed,
        spec_resizes(s, evs).right_player.speed == s.right_player.speed,
        spec_resizes(s, evs).left_text.side == s.left_text.side,
        spec_resizes(s, evs).right_text.side == s.right_text.side,
        spec_resizes(s, evs).left_text.value == s.left_text.value,
        spec_resizes(s, evs).right_text.value == s.right_text.value,
    decreases evs.len(),
{
    if evs.len() > 0 {
        lemma_resizes_touch_layout_only(spec_resize_step(s, evs[0]), evs.drop_first());
    }
}

/// Drain the queue of resize notifications in order.
#[verifier::loop_isolation(false)]
pub fn process_resizes(s: &mut GameState, events: &Vec<WindowResized>)
    requires
        old(s).wf(),
        resizes_ok(*old(s), events@),
    ensures
        *final(s) == spec_resizes(*old(s), events@),
        final(s).wf(),
        events@.len() > 0 ==> final(s).field_consistent(),
{
    let ghost evs = events@;
    let mut idx: usize = 0;
    proof {
        assert(evs.skip(0) =~= evs);
    }
    while idx < events.len()
        invariant
            idx <= events.len(),
            s.wf(),
            resizes_ok(*s, evs.skip(idx as int)),
            spec_resizes(*s, evs.skip(idx as int)) == spec_resizes(*old(s), evs),
            idx > 0 ==> s.field_consistent(),
        decreases events.len() - idx,
    {
        proof {
            assert(evs.skip(idx as int).drop_first() =~= evs.skip(idx as int + 1));
        }
        let ev = events[idx];
        handle_window_resize(s, &ev);
        idx = idx + 1;
    }
    proof {
        assert(evs.skip(events@.len() as int) =~= Seq::<WindowResized>::empty());
    }
}

/// Decide [`resizes_ok`] at run time: whether the whole queue can be applied
/// in order without any proportional remap leaving machine bounds.
#[verifier::loop_isolation(false)]
pub fn can_apply_resizes(s: &GameState, events: &Vec<WindowResized>) -> (r: bool)
    requires
        s.wf(),
    ensures
        r == resizes_ok(*s, events@),
{
    let ghost evs = events@;
    let mut lp = s.left_player.pos;
    let mut rp = s.right_player.pos;
    let mut lt = s.left_text.pos;
    let mut rt = s.right_text.pos;
    let mut lws = s.last_size;
    let ghost mut g = *s;
    let mut idx: usize = 0;
    proof {
        assert(evs.skip(0) =~= evs);
    }
    while idx < events.len()
        invariant
            idx <= events.len(),
            lp == g.left_player.pos,
            rp == g.right_player.pos,
            lt == g.left_text.pos,
            rt == g.right_text.pos,
            lws == g.last_size,
            lp.wf() && rp.wf() && lt.wf() && rt.wf(),
            resizes_ok(*s, evs) == resizes_ok(g, evs.skip(idx as int)),
        decreases events.len() - idx,
    {
        proof {
            assert(evs.skip(idx as int).drop_first() =~= evs.skip(idx as int + 1));
        }
        let ev = events[idx];
        let ok = ev.width > 0 && ev.height > 0 && player::can_move_exec(&lp, &lws, &ev)
            && player::can_move_exec(&rp, &lws, &ev) && player::can_move_exec(&lt, &lws, &ev)
            && player::can_move_exec(&rt, &lws, &ev);
        if !ok {
            return false;
        }
        lp = Pos { x: lp.x.rescale(ev.width, lws.width), y: lp.y.rescale(ev.height, lws.height) };
        rp = Pos { x: rp.x.rescale(ev.width, lws.width), y: rp.y.rescale(ev.height, lws.height) };
        lt = Pos { x: lt.x.rescale(ev.width, lws.width), y: lt.y.rescale(ev.height, lws.height) };
        rt = Pos { x: rt.x.rescale(ev.width, lws.width), y: rt.y.rescale(ev.height, lws.height) };
        lws = LastWindowSize { width: ev.width, height: ev.height };
        proof {
            g = spec_resize_step(g, evs[idx as int]);
        }
        idx = idx + 1;
    }
    proof {
        assert(evs.skip(events@.len() as int) =~= Seq::<WindowResized>::empty());
    }
    true
}

/// Law: a resize notification that carries exactly the cached window size
/// leaves every rescaled position and extent unchanged — the static bodies
/// stay equal, the proportionally remapped positions keep their value.
pub proof fn lemma_resize_idempotent(s: GameState, ev: WindowResized)
    requires
        s.wf(),
        s.field_consistent(),
        resize_ok(s, ev),
        ev.width == s.last_size.width,
        ev.height == s.last_size.height,
    ensures
        spec_resize_step(s, ev).top_bound == s.top_bound,
        spec_resize_step(s, ev).bottom_bound == s.bottom_bound,
        spec_resize_step(s, ev).left_goal == s.left_goal,
        spec_resize_step(s, ev).right_goal == s.right_goal,
        spec_resize_step(s, ev).last_size == s.last_size,
        spec_resize_step(s, ev).left_player.pos.eqv(s.left_player.pos),
        spec_resize_step(s, ev).right_player.pos.eqv(s.right_player.pos),
        spec_resize_step(s, ev).left_text.pos.eqv(s.left_text.pos),
        spec_resize_step(s, ev).right_text.pos.eqv(s.right_text.pos),
{
    s.left_player.pos.x.lemma_rescale_same(ev.width);
    s.left_player.pos.y.lemma_rescale_same(ev.height);
    s.right_player.pos.x.lemma_rescale_same(ev.width);
    s.right_player.pos.y.lemma_rescale_same(ev.height);
    s.left_text.pos.x.lemma_rescale_same(ev.width);
    s.left_text.pos.y.lemma_rescale_same(ev.height);
    s.right_text.pos.x.lemma_rescale_same(ev.width);
    s.right_text.pos.y.lemma_rescale_same(ev.height);
}

/// Advance the simulation by one tick.
///
/// The queues hold every event produced this tick; events not passed here
/// are lost. Returns one sound-cue request per collision-start event.
pub fn tick(
    s: &mut GameState,
    input: &InputState,
    collisions: &Vec<CollisionStarted>,
    resizes: &Vec<WindowResized>,
) -> (cues: Vec<SfxRequestEvent>)
    requires
        old(s).wf(),
        resizes_ok(*old(s), resizes@),
        old(s).scores.left + ball::left_score_delta(collisions@) <= u32::MAX,
        old(s).scores.right + ball::right_score_delta(collisions@) <= u32::MAX,
    ensures
        final(s).wf(),
        final(s).speed_locked(),
        cues@.len() == collisions@.len(),
        forall|i: int| 0 <= i < collisions@.len() ==> cues@[i] == ball::cue_for(collisions@[i]),
        final(s).scores.left == old(s).scores.left + ball::left_score_delta(collisions@),
        final(s).scores.right == old(s).scores.right + ball::right_score_delta(collisions@),
        ball::left_score_delta(collisions@) + ball::right_score_delta(collisions@) > 0 ==> final(s).ball.pos == Pos::spec_origin() && ball::is_diagonal(final(s).ball.vel.dir) && final(s).ball.vel.mag == old(s).ball.speed.0,
        ball::left_score_delta(collisions@) + ball::right_score_delta(collisions@) == 0 ==> final(s).ball.pos == old(s).ball.pos && final(s).ball.vel == physics::spec_aligned(
            old(s).ball.vel,
            old(s).ball.speed,
        ),
        final(s).ball.speed == old(s).ball.speed,
        final(s).left_player.vel == player::spec_paddle_velocity(
            input.left_up,
            input.left_down,
            old(s).left_player.speed,
        ),
        final(s).right_player.vel == player::spec_paddle_velocity(
            input.right_up,
            input.right_down,
            old(s).right_player.speed,
        ),
        final(s).top_bound == spec_resizes(*old(s), resizes@).top_bound,
        final(s).bottom_bound == spec_resizes(*old(s), resizes@).bottom_bound,
        final(s).left_goal == spec_resizes(*old(s), resizes@).left_goal,
        final(s).right_goal == spec_resizes(*old(s), resizes@).right_goal,
        final(s).last_size == spec_resizes(*old(s), resizes@).last_size,
        final(s).left_player.pos == spec_resizes(*old(s), resizes@).left_player.pos,
        final(s).right_player.pos == spec_resizes(*old(s), resizes@).right_player.pos,
        final(s).left_text.pos == spec_resizes(*old(s), resizes@).left_text.pos,
        final(s).right_text.pos == spec_resizes(*old(s), resizes@).right_text.pos,
        ball::left_score_delta(collisions@) + ball::right_score_delta(collisions@) > 0 ==> final(s).texts_mirror(),
        old(s).texts_mirror() ==> final(s).texts_mirror(),
        old(s).field_consistent() || resizes@.len() > 0 ==> final(s).field_consistent(),
{
    let ghost orig = *s;
    let cues = ball::play_sfx_on_contact(collisions);
    process_resizes(s, resizes);
    proof {
        lemma_resizes_touch_layout_only(orig, resizes@);
    }
    player::handle_player_input(&mut s.left_player, input.left_up, input.left_down);
    player::handle_player_input(&mut s.right_player, input.right_up, input.right_down);
    let before_left = s.scores.left;
    let before_right = s.scores.right;
    ball::handle_scoring(&mut s.ball, &mut s.scores, collisions);
    physics::align_velocity_to_speed(&mut s.ball.vel, s.ball.speed);
    let left_speed = s.left_player.speed;
    let right_speed = s.right_player.speed;
    physics::align_velocity_to_speed(&mut s.left_player.vel, left_speed);
    physics::align_velocity_to_speed(&mut s.right_player.vel, right_speed);
    if s.scores.left != before_left || s.scores.right != before_right {
        player::update_score_text_on_scoring(&mut s.left_text, &s.scores);
        player::update_score_text_on_scoring(&mut s.right_text, &s.scores);
    }
    cues
}

} // verus!
