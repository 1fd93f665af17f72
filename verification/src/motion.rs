//! Bodies that circle a fixed anchor: how their phase advances with time.

use crate::vector::Point3;
use vstd::prelude::*;

verus! {

/// A body on a circular path.
///
/// The body lies at `center + orbit_radius * (cos phase_angle, sin phase_angle, 0)`.
/// Only the phase changes as time passes, so it alone is stored: the host derives
/// the position from it whenever it needs one.
#[derive(Clone, Copy, Debug, PartialEq, Eq, Structural)]
pub struct MovingEntity {
    /// The fixed point that the body circles.
    pub center: Point3,
    /// The distance kept from `center`.
    pub orbit_radius: u32,
    /// Where on the circle the body is.
    pub phase_angle: i64,
    /// The angle gained per unit of time; its sign gives the sense of rotation.
    pub angular_speed: i32,
}

/// `value`, or the nearest bound of the 64-bit range where it lies outside.
pub open spec fn saturate(value: int) -> int {
    if value < i64::MIN {
        i64::MIN as int
    } else if value > i64::MAX {
        i64::MAX as int
    } else {
        value
    }
}

/// The sum of the steps of a subdivided stretch of time.
pub open spec fn total(steps: Seq<nat>) -> nat
    decreases steps.len(),
{
    if steps.len() == 0 {
        0
    } else {
        total(steps.drop_last()) + steps.last()
    }
}

impl MovingEntity {
    /// The phase once `elapsed` has passed: `phase_angle + angular_speed * elapsed`,
    /// held at the bound of the 64-bit range should it ever get there.
    pub open spec fn phase_after(self, elapsed: nat) -> int {
        saturate(self.phase_angle + self.angular_speed * elapsed)
    }

    /// The body once `elapsed` has passed.
    pub open spec fn after(self, elapsed: nat) -> MovingEntity {
        MovingEntity { phase_angle: self.phase_after(elapsed) as i64, ..self }
    }

    /// The body after the given steps, taken one after the other.
    pub open spec fn after_steps(self, steps: Seq<nat>) -> MovingEntity
        decreases steps.len(),
    {
        if steps.len() == 0 {
            self
        } else {
            self.after_steps(steps.drop_last()).after(steps.last())
        }
    }

    /// A body at phase `phase_angle` on the circle of radius `orbit_radius` about
    /// `center`.
    pub fn new(center: Point3, orbit_radius: u32, phase_angle: i64, angular_speed: i32) -> (entity:
        MovingEntity)
        ensures
            entity == (MovingEntity { center, orbit_radius, phase_angle, angular_speed }),
    {
        MovingEntity { center, orbit_radius, phase_angle, angular_speed }
    }

    /// Lets `dt` pass: the phase gains `angular_speed * dt`, nothing else changes.
    pub fn advance(&mut self, dt: u32)
        ensures
            *final(self) == old(self).after(dt as nat),
    {
        assert(-0x8000_0000_0000_0000 < self.angular_speed * dt < 0x8000_0000_0000_0000)
            by (nonlinear_arith)
            requires
                -0x8000_0000 <= self.angular_speed < 0x8000_0000,
                0 <= dt < 0x1_0000_0000;
        let gain: i64 = (self.angular_speed as i64) * (dt as i64);
        let exact: i128 = self.phase_angle as i128 + gain as i128;
        if exact < i64::MIN as i128 {
            self.phase_angle = i64::MIN;
        } else if exact > i64::MAX as i128 {
            self.phase_angle = i64::MAX;
        } else {
            self.phase_angle = exact as i64;
        }
    }
}

/// Time is additive: letting `first` pass and then `second` leaves the body where
/// letting `first + second` pass at once does.
pub proof fn lemma_advance_additive(entity: MovingEntity, first: nat, second: nat)
    ensures
        entity.after(first).after(second) == entity.after(first + second),
{
    let speed = entity.angular_speed as int;
    assert(speed * (first + second) == speed * first + speed * second) by (nonlinear_arith);
    if speed >= 0 {
        assert(speed * first >= 0 && speed * second >= 0) by (nonlinear_arith)
            requires
                speed >= 0,
                first >= 0,
                second >= 0;
    } else {
        assert(speed * first <= 0 && speed * second <= 0) by (nonlinear_arith)
            requires
                speed < 0,
                first >= 0,
                second >= 0;
    }
}

/// Where a body is after a stretch of time does not depend on how the stretch was
/// cut into steps: only the sum of the steps counts.
pub proof fn lemma_advance_path_independent(entity: MovingEntity, steps: Seq<nat>)
    ensures
        entity.after_steps(steps) == entity.after(total(steps)),
    decreases steps.len(),
{
    if steps.len() == 0 {
    } else {
        lemma_advance_path_independent(entity, steps.drop_last());
        lemma_advance_additive(entity, total(steps.drop_last()), steps.last());
    }
}

} // verus!
