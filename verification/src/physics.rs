//! Physics interactions not covered by the collision engine: speed limiting.

use vstd::prelude::*;

use crate::component::{Speed, Velocity};

verus! {

/// The velocity with its magnitude forced to the assigned speed.
///
/// The direction is kept; a body at rest has no direction to preserve and
/// stays at rest.
pub open spec fn spec_aligned(v: Velocity, speed: Speed) -> Velocity {
    if v.dir.is_zero() {
        Velocity::spec_zero()
    } else {
        Velocity { dir: v.dir, mag: speed.0 }
    }
}

/// Force the magnitude of a velocity to be equal to the assigned speed.
///
/// Runs every tick on every speed-bearing body, after any rule that may have
/// set an un-normalized velocity.
pub fn align_velocity_to_speed(vel: &mut Velocity, speed: Speed)
    ensures
        *final(vel) == spec_aligned(*old(vel), speed),
        final(vel).locked_to(speed),
        final(vel).wf(),
{
    if vel.dir.x == 0 && vel.dir.y == 0 {
        *vel = Velocity::zero();
    } else {
        vel.mag = speed.0;
    }
}

/// Law: the aligned velocity is speed-locked: its magnitude equals the
/// assigned speed, unless the body is at rest.
pub proof fn lemma_align_locks(v: Velocity, speed: Speed)
    ensures
        spec_aligned(v, speed).locked_to(speed),
        spec_aligned(v, speed).wf(),
{
}

/// Law: speed alignment is idempotent, so it tolerates running after a rule
/// that already produced a speed-locked velocity.
pub proof fn lemma_align_idempotent(v: Velocity, speed: Speed)
    ensures
        spec_aligned(spec_aligned(v, speed), speed) == spec_aligned(v, speed),
{
}

} // verus!
