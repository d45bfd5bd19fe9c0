//! Players, scores, score displays and the cached window size.

use vstd::prelude::*;
use vstd::string::StringExecFns;

use crate::component::{Dir, ScoreText, Speed, Velocity, WindowResized};
use crate::frac::{Frac, Pos};

verus! {

pub const DEFAULT_PLAYER_HALF_WIDTH: u32 = 5;

pub const DEFAULT_PLAYER_HALF_HEIGHT: u32 = 20;

pub const DEFAULT_PLAYER_SPEED: u32 = 1000;

/// A paddle: x is fixed per side, only the vertical velocity is driven. The
/// collider half extents are fixed at spawn and never rescaled.
#[derive(Clone, Copy, Debug)]
pub struct Player {
    pub pos: Pos,
    pub vel: Velocity,
    pub speed: Speed,
    pub half_width: u32,
    pub half_height: u32,
}

impl Player {
    pub open spec fn wf(self) -> bool {
        self.pos.wf()
    }
}

/// The pair of score counters, starting at zero, only ever incremented.
#[derive(Clone, Copy, PartialEq, Eq, Structural, Debug, Default)]
pub struct Scores {
    pub left: u32,
    pub right: u32,
}

/// One score display: a text entity mirroring one counter.
#[derive(Clone, Debug)]
pub struct ScoreDisplay {
    pub side: ScoreText,
    pub pos: Pos,
    pub value: String,
}

impl ScoreDisplay {
    pub open spec fn wf(self) -> bool {
        self.pos.wf()
    }
}

/// The cached window size: the scaling basis for the next resize.
#[derive(Clone, Copy, PartialEq, Eq, Structural, Debug)]
pub struct LastWindowSize {
    pub width: u32,
    pub height: u32,
}

impl LastWindowSize {
    pub open spec fn wf(self) -> bool {
        self.width > 0 && self.height > 0
    }
}

/// The vertical velocity commanded by the held state of the two bound keys.
///
/// Up held alone drives the paddle up at full speed, down held alone drives
/// it down; both or neither held leaves it at rest. The horizontal component
/// is axis-locked to zero.
pub open spec fn spec_paddle_velocity(up_held: bool, down_held: bool, speed: Speed) -> Velocity {
    if up_held && !down_held {
        Velocity { dir: Dir { x: 0, y: 1 }, mag: speed.0 }
    } else if down_held && !up_held {
        Velocity { dir: Dir { x: 0, y: (-1) as i64 }, mag: speed.0 }
    } else {
        Velocity::spec_zero()
    }
}

/// Translate the held-key state into this tick's velocity command.
///
/// Overwrites the previous command every tick; no smoothing.
pub fn handle_player_input(player: &mut Player, up_held: bool, down_held: bool)
    ensures
        final(player).vel == spec_paddle_velocity(up_held, down_held, old(player).speed),
        final(player).vel.wf(),
        final(player).vel.locked_to(old(player).speed),
        final(player).pos == old(player).pos,
        final(player).speed == old(player).speed,
        final(player).half_width == old(player).half_width,
        final(player).half_height == old(player).half_height,
{
    if up_held && !down_held {
        player.vel = Velocity { dir: Dir { x: 0, y: 1 }, mag: player.speed.0 };
    } else if down_held && !up_held {
        player.vel = Velocity { dir: Dir { x: 0, y: -1 }, mag: player.speed.0 };
    } else {
        player.vel = Velocity::zero();
    }
}

/// The two paddles at startup: at a third of the window width to each side of
/// the center, at rest.
pub fn spawn_players(width: u32, height: u32) -> (r: (Player, Player))
    requires
        width > 0,
        height > 0,
    ensures
        r.0.pos == (Pos { x: Frac { num: (-(width as i64)) as i64, den: 3 }, y: Frac { num: 0, den: 1 } }),
        r.1.pos == (Pos { x: Frac { num: width as i64, den: 3 }, y: Frac { num: 0, den: 1 } }),
        r.0.vel == Velocity::spec_zero(),
        r.1.vel == Velocity::spec_zero(),
        r.0.speed.0 == DEFAULT_PLAYER_SPEED,
        r.1.speed.0 == DEFAULT_PLAYER_SPEED,
        r.0.half_width == DEFAULT_PLAYER_HALF_WIDTH,
        r.1.half_width == DEFAULT_PLAYER_HALF_WIDTH,
        r.0.half_height == DEFAULT_PLAYER_HALF_HEIGHT,
        r.1.half_height == DEFAULT_PLAYER_HALF_HEIGHT,
        r.0.wf() && r.1.wf(),
{
    let w: i64 = width as i64;
    let left = Player {
        pos: Pos { x: Frac::new(-w, 3), y: Frac::from_int(0) },
        vel: Velocity::zero(),
        speed: Speed(DEFAULT_PLAYER_SPEED),
        half_width: DEFAULT_PLAYER_HALF_WIDTH,
        half_height: DEFAULT_PLAYER_HALF_HEIGHT,
    };
    let right = Player {
        pos: Pos { x: Frac::new(w, 3), y: Frac::from_int(0) },
        vel: Velocity::zero(),
        speed: Speed(DEFAULT_PLAYER_SPEED),
        half_width: DEFAULT_PLAYER_HALF_WIDTH,
        half_height: DEFAULT_PLAYER_HALF_HEIGHT,
    };
    (left, right)
}

/// The cached window size at startup: the current window dimensions.
pub fn init_last_window_size(width: u32, height: u32) -> (r: LastWindowSize)
    requires
        width > 0,
        height > 0,
    ensures
        r == (LastWindowSize { width, height }),
        r.wf(),
{
    LastWindowSize { width, height }
}

/// Whether a position can be remapped from the old window size to the event's
/// without leaving machine bounds.
pub open spec fn can_move(p: Pos, lws: LastWindowSize, ev: WindowResized) -> bool {
    p.x.can_scale(ev.width, lws.width) && p.y.can_scale(ev.height, lws.height)
}

/// Decide [`can_move`] at run time.
pub fn can_move_exec(p: &Pos, lws: &LastWindowSize, ev: &WindowResized) -> (r: bool)
    requires
        p.wf(),
    ensures
        r == can_move(*p, *lws, *ev),
{
    p.x.can_scale_exec(ev.width, lws.width) && p.y.can_scale_exec(ev.height, lws.height)
}

/// A position remapped proportionally: each coordinate is multiplied by the
/// exact ratio of the new window dimension to the old one, preserving the
/// relative placement within the field.
pub open spec fn spec_moved(p: Pos, lws: LastWindowSize, ev: WindowResized) -> Pos {
    Pos { x: p.x.spec_rescale(ev.width, lws.width), y: p.y.spec_rescale(ev.height, lws.height) }
}

fn move_pos(pos: &mut Pos, lws: &LastWindowSize, ev: &WindowResized)
    requires
        old(pos).wf(),
        can_move(*old(pos), *lws, *ev),
    ensures
        *final(pos) == spec_moved(*old(pos), *lws, *ev),
        final(pos).wf(),
{
    pos.x = pos.x.rescale(ev.width, lws.width);
    pos.y = pos.y.rescale(ev.height, lws.height);
}

/// Remap both paddles proportionally to the new window size, using the
/// cached previous size as the scaling basis.
pub fn move_players_with_window(
    left: &mut Player,
    right: &mut Player,
    lws: &LastWindowSize,
    ev: &WindowResized,
)
    requires
        old(left).wf(),
        old(right).wf(),
        can_move(old(left).pos, *lws, *ev),
        can_move(old(right).pos, *lws, *ev),
    ensures
        final(left).pos == spec_moved(old(left).pos, *lws, *ev),
        final(right).pos == spec_moved(old(right).pos, *lws, *ev),
        final(left).vel == old(left).vel,
        final(right).vel == old(right).vel,
        final(left).speed == old(left).speed,
        final(right).speed == old(right).speed,
        final(left).half_width == old(left).half_width,
        final(right).half_width == old(right).half_width,
        final(left).half_height == old(left).half_height,
        final(right).half_height == old(right).half_height,
        final(left).wf() && final(right).wf(),
{
    move_pos(&mut left.pos, lws, ev);
    move_pos(&mut right.pos, lws, ev);
}

/// Remap both score displays proportionally to the new window size, using
/// the cached previous size as the scaling basis.
pub fn move_score_text_with_window(
    left: &mut ScoreDisplay,
    right: &mut ScoreDisplay,
    lws: &LastWindowSize,
    ev: &WindowResized,
)
    requires
        old(left).wf(),
        old(right).wf(),
        can_move(old(left).pos, *lws, *ev),
        can_move(old(right).pos, *lws, *ev),
    ensures
        final(left).pos == spec_moved(old(left).pos, *lws, *ev),
        final(right).pos == spec_moved(old(right).pos, *lws, *ev),
        final(left).side == old(left).side,
        final(right).side == old(right).side,
        final(left).value == old(left).value,
        final(right).value == old(right).value,
        final(left).wf() && final(right).wf(),
{
    move_pos(&mut left.pos, lws, ev);
    move_pos(&mut right.pos, lws, ev);
}

/// The character for one decimal digit.
pub open spec fn digit_char(d: nat) -> char {
    if d == 0 {
        '0'
    } else if d == 1 {
        '1'
    } else if d == 2 {
        '2'
    } else if d == 3 {
        '3'
    } else if d == 4 {
        '4'
    } else if d == 5 {
        '5'
    } else if d == 6 {
        '6'
    } else if d == 7 {
        '7'
    } else if d == 8 {
        '8'
    } else {
        '9'
    }
}

/// The decimal digit string of `n`, most significant digit first, without a
/// sign and without leading zeros (except for `n == 0` itself).
pub open spec fn spec_decimal(n: nat) -> Seq<char>
    decreases n,
{
    if n < 10 {
        seq![digit_char(n)]
    } else {
        spec_decimal(n / 10).push(digit_char(n % 10))
    }
}

fn digit_str(d: u32) -> (r: &'static str)
    requires
        d < 10,
    ensures
        r@ == seq![digit_char(d as nat)],
{
    match d {
        0u32 => {
            proof {
                reveal_strlit("0");
                assert("0"@ =~= seq![digit_char(0)]);
            }
            "0"
        },
        1u32 => {
            proof {
                reveal_strlit("1");
                assert("1"@ =~= seq![digit_char(1)]);
            }
            "1"
        },
        2u32 => {
            proof {
                reveal_strlit("2");
                assert("2"@ =~= seq![digit_char(2)]);
            }
            "2"
        },
        3u32 => {
            proof {
                reveal_strlit("3");
                assert("3"@ =~= seq![digit_char(3)]);
            }
            "3"
        },
        4u32 => {
            proof {
                reveal_strlit("4");
                assert("4"@ =~= seq![digit_char(4)]);
            }
            "4"
        },
        5u32 => {
            proof {
                reveal_strlit("5");
                assert("5"@ =~= seq![digit_char(5)]);
            }
            "5"
        },
        6u32 => {
            proof {
                reveal_strlit("6");
                assert("6"@ =~= seq![digit_char(6)]);
            }
            "6"
        },
        7u32 => {
            proof {
                reveal_strlit("7");
                assert("7"@ =~= seq![digit_char(7)]);
            }
            "7"
        },
        8u32 => {
            proof {
                reveal_strlit("8");
                assert("8"@ =~= seq![digit_char(8)]);
            }
            "8"
        },
        _ => {
            proof {
                reveal_strlit("9");
                assert("9"@ =~= seq![digit_char(9)]);
            }
            "9"
        },
    }
}

/// The decimal string of `n`, as its display text.
pub fn decimal_string(n: u32) -> (r: String)
    ensures
        r@ == spec_decimal(n as nat),
    decreases n,
{
    if n < 10 {
        let s = digit_str(n);
        s.to_owned()
    } else {
        let mut s = decimal_string(n / 10);
        let d = digit_str(n % 10);
        s.append(d);
        proof {
            assert(s@ =~= spec_decimal(n as nat));
        }
        s
    }
}

/// The counter a display mirrors.
pub open spec fn spec_counter(scores: Scores, side: ScoreText) -> u32 {
    if side is Left {
        scores.left
    } else {
        scores.right
    }
}

/// The display text equals the decimal string of its counter.
pub open spec fn mirrors(text: ScoreDisplay, scores: Scores) -> bool {
    text.value@ == spec_decimal(spec_counter(scores, text.side) as nat)
}

/// Refresh a display to the decimal string of its counter.
pub fn update_score_text_on_scoring(text: &mut ScoreDisplay, scores: &Scores)
    ensures
        final(text).side == old(text).side,
        final(text).pos == old(text).pos,
        mirrors(*final(text), *scores),
{
    let v = match text.side {
        ScoreText::Left => scores.left,
        ScoreText::Right => scores.right,
    };
    text.value = decimal_string(v);
}

/// The two score displays at startup: a quarter of the window width to each
/// side of the center, three eighths of the height up, both showing zero.
pub fn spawn_score_text(width: u32, height: u32) -> (r: (ScoreDisplay, ScoreDisplay))
    ensures
        r.0.side == ScoreText::Left,
        r.1.side == ScoreText::Right,
        r.0.pos == (Pos {
            x: Frac { num: (-(width as i64)) as i64, den: 4 },
            y: Frac { num: (3 * (height as i64)) as i64, den: 8 },
        }),
        r.1.pos == (Pos {
            x: Frac { num: width as i64, den: 4 },
            y: Frac { num: (3 * (height as i64)) as i64, den: 8 },
        }),
        mirrors(r.0, (Scores { left: 0, right: 0 })),
        mirrors(r.1, (Scores { left: 0, right: 0 })),
        r.0.wf() && r.1.wf(),
{
    let w: i64 = width as i64;
    let y = Frac::new(3 * (height as i64), 8);
    proof {
        reveal_strlit("0");
        assert("0"@ =~= seq![digit_char(0)]);
    }
    let left = ScoreDisplay {
        side: ScoreText::Left,
        pos: Pos { x: Frac::new(-w, 4), y },
        value: String::from_str("0"),
    };
    let right = ScoreDisplay {
        side: ScoreText::Right,
        pos: Pos { x: Frac::new(w, 4), y },
        value: String::from_str("0"),
    };
    (left, right)
}

/// Overwrite the cached window size with the event's dimensions.
///
/// Runs after every consumer of the old size within the same notification
/// cycle: the old value is the scaling basis and must be read first.
pub fn update_last_window_size(lws: &mut LastWindowSize, ev: &WindowResized)
    requires
        ev.width > 0,
        ev.height > 0,
    ensures
        *final(lws) == (LastWindowSize { width: ev.width, height: ev.height }),
        final(lws).wf(),
{
    *lws = LastWindowSize { width: ev.width, height: ev.height };
}

} // verus!
