//! The playfield: solid bounds, goal sensor zones, and their window-relative
//! rebuild on resize.

use vstd::prelude::*;

use crate::component::{Bound, Goal, WindowResized};
use crate::frac::{Frac, Pos};

verus! {

/// Half extents of a rectangular collider.
#[derive(Clone, Copy, PartialEq, Eq, Structural, Debug)]
pub struct Extent {
    pub hx: Frac,
    pub hy: Frac,
}

impl Extent {
    pub open spec fn wf(self) -> bool {
        self.hx.wf() && self.hy.wf()
    }
}

/// A static field body: a solid wall or a detection-only goal zone, with its
/// position and collider half extents.
#[derive(Clone, Copy, PartialEq, Eq, Structural, Debug)]
pub struct Zone {
    pub pos: Pos,
    pub half: Extent,
}

impl Zone {
    pub open spec fn wf(self) -> bool {
        self.pos.wf() && self.half.wf()
    }
}

/// Where a resize to `width x height` puts the bound `b`: at half the window
/// height above or below the center, spanning half the width each way, with
/// the fixed thin half thickness of one half unit. The x coordinate is left
/// to the spawner and never rewritten.
pub open spec fn bound_placed(z: Zone, b: Bound, width: u32, height: u32) -> bool {
    &&& z.pos.y == (if b is Top {
        Frac { num: height as i64, den: 2 }
    } else {
        Frac { num: (-(height as i64)) as i64, den: 2 }
    })
    &&& z.half == (Extent {
        hx: Frac { num: width as i64, den: 2 },
        hy: Frac { num: 1, den: 2 },
    })
}

/// Where a resize to `width x height` puts the goal `g`: at half the window
/// width beside the center, spanning half the height each way, with the fixed
/// thin half thickness of one half unit. The y coordinate is left to the
/// spawner and never rewritten.
pub open spec fn goal_placed(z: Zone, g: Goal, width: u32, height: u32) -> bool {
    &&& z.pos.x == (if g is Left {
        Frac { num: (-(width as i64)) as i64, den: 2 }
    } else {
        Frac { num: width as i64, den: 2 }
    })
    &&& z.half == (Extent {
        hx: Frac { num: 1, den: 2 },
        hy: Frac { num: height as i64, den: 2 },
    })
}

/// The bound `z` rebuilt for the event's window size; only the x coordinate
/// survives.
pub open spec fn spec_bound_resized(z: Zone, b: Bound, ev: WindowResized) -> Zone {
    Zone {
        pos: Pos {
            x: z.pos.x,
            y: if b is Top {
                Frac { num: ev.height as i64, den: 2 }
            } else {
                Frac { num: (-(ev.height as i64)) as i64, den: 2 }
            },
        },
        half: Extent { hx: Frac { num: ev.width as i64, den: 2 }, hy: Frac { num: 1, den: 2 } },
    }
}

/// The goal `z` rebuilt for the event's window size; only the y coordinate
/// survives.
pub open spec fn spec_goal_resized(z: Zone, g: Goal, ev: WindowResized) -> Zone {
    Zone {
        pos: Pos {
            x: if g is Left {
                Frac { num: (-(ev.width as i64)) as i64, den: 2 }
            } else {
                Frac { num: ev.width as i64, den: 2 }
            },
            y: z.pos.y,
        },
        half: Extent { hx: Frac { num: 1, den: 2 }, hy: Frac { num: ev.height as i64, den: 2 } },
    }
}

/// The top & bottom bounds at startup, centered horizontally.
pub fn spawn_bounds(width: u32, height: u32) -> (r: (Zone, Zone))
    ensures
        bound_placed(r.0, Bound::Top, width, height),
        bound_placed(r.1, Bound::Bottom, width, height),
        r.0.pos.x == (Frac { num: 0, den: 1 }),
        r.1.pos.x == (Frac { num: 0, den: 1 }),
        r.0.wf() && r.1.wf(),
{
    let h: i64 = height as i64;
    let half = Extent { hx: Frac::new(width as i64, 2), hy: Frac::new(1, 2) };
    let top = Zone { pos: Pos { x: Frac::from_int(0), y: Frac::new(h, 2) }, half };
    let bottom = Zone { pos: Pos { x: Frac::from_int(0), y: Frac::new(-h, 2) }, half };
    (top, bottom)
}

/// The left & right goal sensor zones at startup, centered vertically.
pub fn spawn_goals(width: u32, height: u32) -> (r: (Zone, Zone))
    ensures
        goal_placed(r.0, Goal::Left, width, height),
        goal_placed(r.1, Goal::Right, width, height),
        r.0.pos.y == (Frac { num: 0, den: 1 }),
        r.1.pos.y == (Frac { num: 0, den: 1 }),
        r.0.wf() && r.1.wf(),
{
    let w: i64 = width as i64;
    let half = Extent { hx: Frac::new(1, 2), hy: Frac::new(height as i64, 2) };
    let left = Zone { pos: Pos { x: Frac::new(-w, 2), y: Frac::from_int(0) }, half };
    let right = Zone { pos: Pos { x: Frac::new(w, 2), y: Frac::from_int(0) }, half };
    (left, right)
}

/// Rebuild the bounds for the new window size: reposition to half the new
/// height above and below the center and re-extend to half the new width.
pub fn resize_bounds_with_window(top: &mut Zone, bottom: &mut Zone, ev: &WindowResized)
    requires
        old(top).wf(),
        old(bottom).wf(),
    ensures
        *final(top) == spec_bound_resized(*old(top), Bound::Top, *ev),
        *final(bottom) == spec_bound_resized(*old(bottom), Bound::Bottom, *ev),
        bound_placed(*final(top), Bound::Top, ev.width, ev.height),
        bound_placed(*final(bottom), Bound::Bottom, ev.width, ev.height),
        final(top).pos.x == old(top).pos.x,
        final(bottom).pos.x == old(bottom).pos.x,
        final(top).wf() && final(bottom).wf(),
{
    let h: i64 = ev.height as i64;
    let half = Extent { hx: Frac::new(ev.width as i64, 2), hy: Frac::new(1, 2) };
    top.pos.y = Frac::new(h, 2);
    top.half = half;
    bottom.pos.y = Frac::new(-h, 2);
    bottom.half = half;
}

/// Rebuild the goals for the new window size: reposition to half the new
/// width beside the center and re-extend to half the new height.
pub fn resize_goals_with_window(left: &mut Zone, right: &mut Zone, ev: &WindowResized)
    requires
        old(left).wf(),
        old(right).wf(),
    ensures
        *final(left) == spec_goal_resized(*old(left), Goal::Left, *ev),
        *final(right) == spec_goal_resized(*old(right), Goal::Right, *ev),
        goal_placed(*final(left), Goal::Left, ev.width, ev.height),
        goal_placed(*final(right), Goal::Right, ev.width, ev.height),
        final(left).pos.y == old(left).pos.y,
        final(right).pos.y == old(right).pos.y,
        final(left).wf() && final(right).wf(),
{
    let w: i64 = ev.width as i64;
    let half = Extent { hx: Frac::new(1, 2), hy: Frac::new(ev.height as i64, 2) };
    left.pos.x = Frac::new(-w, 2);
    left.half = half;
    right.pos.x = Frac::new(w, 2);
    right.half = half;
}

} // verus!
