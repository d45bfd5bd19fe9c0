//! Shared component types: markers for the static field bodies, the assigned
//! speed, velocities, and the events the rules consume.

use vstd::prelude::*;

verus! {

/// The top & bottom bounds of the playfield.
#[derive(Clone, Copy, PartialEq, Eq, Structural, Debug)]
pub enum Bound {
    Top,
    Bottom,
}

/// The left & right goals.
#[derive(Clone, Copy, PartialEq, Eq, Structural, Debug)]
pub enum Goal {
    Left,
    Right,
}

/// The side a paddle defends.
#[derive(Clone, Copy, PartialEq, Eq, Structural, Debug)]
pub enum Side {
    Left,
    Right,
}

/// The left & right score displays.
#[derive(Clone, Copy, PartialEq, Eq, Structural, Debug)]
pub enum ScoreText {
    Left,
    Right,
}

/// The constant speed assigned to a moving body.
#[derive(Clone, Copy, PartialEq, Eq, Structural, Debug)]
pub struct Speed(pub u32);

/// An unnormalized direction vector with integer components.
///
/// Only the ray through the origin matters; the components carry no unit.
/// The physics boundary reports a body's current heading in this form, and
/// the rules hand back headings such as the four diagonals `(±1, ±1)`.
#[derive(Clone, Copy, PartialEq, Eq, Structural, Debug)]
pub struct Dir {
    pub x: i64,
    pub y: i64,
}

impl Dir {
    pub open spec fn is_zero(self) -> bool {
        self.x == 0 && self.y == 0
    }
}

/// A velocity, stored as a direction and an explicit magnitude.
///
/// The physical velocity vector is the unit vector along `dir`, scaled by
/// `mag`; a zero `dir` means the body is at rest. Producing unit-vector
/// components takes a square root, which only the engine boundary computes;
/// keeping the magnitude explicit makes the speed-lock invariant exact.
#[derive(Clone, Copy, PartialEq, Eq, Structural, Debug)]
pub struct Velocity {
    pub dir: Dir,
    pub mag: u32,
}

impl Velocity {
    /// Well-formed: a body at rest has magnitude zero.
    pub open spec fn wf(self) -> bool {
        self.dir.is_zero() ==> self.mag == 0
    }

    /// The velocity of a body at rest.
    pub open spec fn spec_zero() -> Velocity {
        Velocity { dir: Dir { x: 0, y: 0 }, mag: 0 }
    }

    pub fn zero() -> (r: Velocity)
        ensures
            r == Velocity::spec_zero(),
            r.wf(),
    {
        Velocity { dir: Dir { x: 0, y: 0 }, mag: 0 }
    }

    /// The magnitude equals the assigned speed, unless the body is at rest.
    pub open spec fn locked_to(self, speed: Speed) -> bool {
        self == Velocity::spec_zero() || self.mag == speed.0
    }
}

/// A body the collision broadphase can report.
#[derive(Clone, Copy, PartialEq, Eq, Structural, Debug)]
pub enum Body {
    Ball,
    Paddle(Side),
    Goal(Goal),
    Bound(Bound),
}

/// A collision-start event: two bodies began touching this tick.
///
/// `sensor` mirrors the collision engine's sensor flag: the contact involved
/// a detection-only zone and produced no physical response. The engine orders
/// the two participants; the scoring rule depends on that order, the
/// sound-cue rule does not.
#[derive(Clone, Copy, PartialEq, Eq, Structural, Debug)]
pub struct CollisionStarted {
    pub first: Body,
    pub second: Body,
    pub sensor: bool,
}

/// A window-resize notification carrying the new dimensions.
///
/// Zero dimensions are excluded wherever an event is consumed: a proportional
/// remap with a zero-sized basis is undefined.
#[derive(Clone, Copy, PartialEq, Eq, Structural, Debug)]
pub struct WindowResized {
    pub width: u32,
    pub height: u32,
}

} // verus!
