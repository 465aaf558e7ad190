//! Laws of the per-tick update rules.

use vstd::prelude::*;
use crate::keys::HeldKeys;
use crate::motion::CarTransform;
use crate::vector::Vector3;
use crate::velocity::{heading_after, speed_after, Velocity};

verus! {

/// With the accelerator held and the brake released, a tick adds 0.01 to the
/// speed, whatever the speed and the steering keys.
pub proof fn law_accelerating_adds_a_step(speed: int, keys: HeldKeys)
    requires
        keys.accelerate,
        !keys.brake,
    ensures
        speed_after(speed, keys) == speed + 10,
{
}

/// With the brake held and the accelerator released, a tick takes 0.01 from
/// the speed, whatever the speed and the steering keys.
pub proof fn law_braking_removes_a_step(speed: int, keys: HeldKeys)
    requires
        keys.brake,
        !keys.accelerate,
    ensures
        speed_after(speed, keys) == speed - 10,
{
}

/// With neither accelerator nor brake held, a tick takes 0.005 from a
/// positive speed and adds 0.005 to any other. A speed of exactly 0.005
/// comes to rest; a car at rest does not stay there.
pub proof fn law_coasting_decays(speed: int, keys: HeldKeys)
    requires
        !keys.accelerate,
        !keys.brake,
    ensures
        speed > 0 ==> speed_after(speed, keys) == speed - 5,
        speed <= 0 ==> speed_after(speed, keys) == speed + 5,
{
}

/// While coasting, a speed within one decay step of rest stays within one
/// step of it, and comes to rest only from exactly one step away.
pub proof fn law_coasting_stays_near_rest(speed: int, keys: HeldKeys)
    requires
        !keys.accelerate,
        !keys.brake,
        -5 <= speed <= 5,
    ensures
        -5 <= speed_after(speed, keys) <= 5,
        speed_after(speed, keys) == 0 <==> (speed == 5 || speed == -5),
{
}

/// Steering left alone turns the heading by one step of 0.02 radians to the
/// left, steering right alone by one step to the right, and the speed keys
/// have no part in it.
pub proof fn law_steering_turns_one_step(heading: int, keys: HeldKeys)
    ensures
        keys.left && !keys.right ==> heading_after(heading, keys) == heading + 1,
        keys.right && !keys.left ==> heading_after(heading, keys) == heading - 1,
        keys.left == keys.right ==> heading_after(heading, keys) == heading,
{
}

/// A step to the left and a step to the right undo each other.
pub proof fn law_left_and_right_are_inverse(heading: int, left: HeldKeys, right: HeldKeys)
    requires
        left.left && !left.right,
        right.right && !right.left,
    ensures
        heading_after(heading_after(heading, left), right) == heading,
        heading_after(heading_after(heading, right), left) == heading,
{
}

/// A car at rest stays where it is: a tick of travel at speed zero leaves
/// the position unchanged along any direction, and leaves the whole
/// transform unchanged if the car already faces along its heading.
pub proof fn law_rest_keeps_position(
    before: CarTransform,
    after: CarTransform,
    velocity: Velocity,
    direction: Vector3,
)
    requires
        velocity.speed == 0,
        after.is_moved_from(before, velocity, direction),
    ensures
        after.position == before.position,
        before.yaw == velocity.heading ==> after == before,
{
    assert(0 * (direction.x as int) == 0);
    assert(0 * (direction.y as int) == 0);
    assert(0 * (direction.z as int) == 0);
}

/// At rest, moving twice is moving once.
pub proof fn law_rest_is_idempotent(
    start: CarTransform,
    once: CarTransform,
    twice: CarTransform,
    velocity: Velocity,
    direction: Vector3,
)
    requires
        velocity.speed == 0,
        once.is_moved_from(start, velocity, direction),
        twice.is_moved_from(once, velocity, direction),
    ensures
        twice == once,
{
    law_rest_keeps_position(once, twice, velocity, direction);
}

/// A car at rest can always be moved.
pub proof fn law_rest_can_move(transform: CarTransform, velocity: Velocity, direction: Vector3)
    requires
        velocity.speed == 0,
    ensures
        transform.can_move(velocity, direction),
{
    assert(0 * (direction.x as int) == 0);
    assert(0 * (direction.y as int) == 0);
    assert(0 * (direction.z as int) == 0);
}

} // verus!
