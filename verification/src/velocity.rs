//! The car's speed and heading, and how held keys change them each tick.

use vstd::prelude::*;
use crate::keys::HeldKeys;

verus! {

/// Speed gained per tick while accelerating, and lost per tick while braking,
/// in thousandths of a length unit per tick (0.01).
pub const ACCELERATION: i64 = 10;

/// Speed by which a coasting car moves toward rest each tick, in thousandths
/// of a length unit per tick (0.005).
pub const DECAY: i64 = 5;

/// The speed after one tick with `keys` held, from the speed before it.
///
/// Accelerating takes precedence over braking. With neither held the car
/// coasts: a positive speed drops by `DECAY`, any other speed rises by
/// `DECAY`. Coasting does not stop at rest, so a car at rest moves to `DECAY`
/// and then alternates between `DECAY` and rest.
pub open spec fn speed_after(speed: int, keys: HeldKeys) -> int {
    if keys.accelerate {
        speed + ACCELERATION
    } else if keys.brake {
        speed - ACCELERATION
    } else if speed > 0 {
        speed - DECAY
    } else {
        speed + DECAY
    }
}

/// The heading after one tick with `keys` held, from the heading before it.
pub open spec fn heading_after(heading: int, keys: HeldKeys) -> int {
    heading + keys.steering()
}

/// How fast the car moves and where it points.
#[derive(Clone, Copy, Debug, PartialEq, Eq, Structural)]
pub struct Velocity {
    /// Signed speed along the heading, in thousandths of a length unit per tick.
    pub speed: i64,
    /// Rotation of the direction of travel about the vertical axis, away from
    /// straight ahead, in steps of 0.02 radians; positive is to the left.
    pub heading: i64,
}

impl Default for Velocity {
    /// At rest, pointing straight ahead.
    fn default() -> (v: Velocity)
        ensures
            v.speed == 0,
            v.heading == 0,
    {
        Velocity { speed: 0, heading: 0 }
    }
}

impl Velocity {
    /// Whether the speed and heading after a tick with `keys` held can be
    /// represented.
    pub open spec fn accepts(self, keys: HeldKeys) -> bool {
        &&& i64::MIN <= speed_after(self.speed as int, keys) <= i64::MAX
        &&& i64::MIN <= heading_after(self.heading as int, keys) <= i64::MAX
    }

    /// Decides `accepts`.
    pub fn can_apply(&self, keys: HeldKeys) -> (ok: bool)
        ensures
            ok == self.accepts(keys),
    {
        let speed_ok = if keys.accelerate {
            self.speed <= i64::MAX - ACCELERATION
        } else if keys.brake {
            self.speed >= i64::MIN + ACCELERATION
        } else {
            true
        };
        let heading_ok = if keys.left && !keys.right {
            self.heading < i64::MAX
        } else if keys.right && !keys.left {
            self.heading > i64::MIN
        } else {
            true
        };
        speed_ok && heading_ok
    }
}

/// Applies one tick of key input to `velocity`.
pub fn speed_control(velocity: &mut Velocity, keys: HeldKeys)
    requires
        old(velocity).accepts(keys),
    ensures
        final(velocity).speed == speed_after(old(velocity).speed as int, keys),
        final(velocity).heading == heading_after(old(velocity).heading as int, keys),
{
    if keys.accelerate {
        velocity.speed = velocity.speed + ACCELERATION;
    } else if keys.brake {
        velocity.speed = velocity.speed - ACCELERATION;
    } else if velocity.speed > 0 {
        velocity.speed = velocity.speed - DECAY;
    } else {
        velocity.speed = velocity.speed + DECAY;
    }
    if keys.left && !keys.right {
        velocity.heading = velocity.heading + 1;
    } else if keys.right && !keys.left {
        velocity.heading = velocity.heading - 1;
    }
}

/// Applies one tick of key input to `velocity` where the result can be
/// represented, and says whether it did; otherwise `velocity` is left as it
/// was.
pub fn speed_control_checked(velocity: &mut Velocity, keys: HeldKeys) -> (applied: bool)
    ensures
        applied == old(velocity).accepts(keys),
        applied ==> final(velocity).speed == speed_after(old(velocity).speed as int, keys),
        applied ==> final(velocity).heading == heading_after(old(velocity).heading as int, keys),
        !applied ==> *final(velocity) == *old(velocity),
{
    if velocity.can_apply(keys) {
        speed_control(velocity, keys);
        true
    } else {
        false
    }
}

} // verus!
