//! Moving the car: one tick of travel along its direction.

use vstd::prelude::*;
use crate::vector::Vector3;
use crate::velocity::Velocity;

verus! {

/// Billionths of a length unit in one length unit: the scale of positions.
pub const POSITION_SCALE: i64 = 1_000_000_000;

/// Millionths in one: the scale of direction components.
pub const DIRECTION_SCALE: i64 = 1_000_000;

/// One coordinate after a tick of travel: a speed in thousandths times a
/// direction component in millionths is a displacement in billionths.
pub open spec fn coordinate_after(coordinate: int, speed: int, direction: int) -> int {
    coordinate + speed * direction
}

/// Where the car is and which way it faces.
#[derive(Clone, Copy, Debug, PartialEq, Eq, Structural)]
pub struct CarTransform {
    /// Position in billionths of a length unit.
    pub position: Vector3,
    /// Rotation about the vertical axis that turns straight ahead onto the
    /// direction of travel, in steps of 0.02 radians.
    pub yaw: i64,
}

/// The direction of a car that points straight ahead: toward negative `z`.
pub fn forward() -> (direction: Vector3)
    ensures
        direction == (Vector3 { x: 0, y: 0, z: -1_000_000i64 }),
{
    Vector3 { x: 0, y: 0, z: -DIRECTION_SCALE }
}

impl CarTransform {
    /// Whether the position after a tick of travel can be represented.
    pub open spec fn can_move(self, velocity: Velocity, direction: Vector3) -> bool {
        &&& i64::MIN <= coordinate_after(
            self.position.x as int,
            velocity.speed as int,
            direction.x as int,
        ) <= i64::MAX
        &&& i64::MIN <= coordinate_after(
            self.position.y as int,
            velocity.speed as int,
            direction.y as int,
        ) <= i64::MAX
        &&& i64::MIN <= coordinate_after(
            self.position.z as int,
            velocity.speed as int,
            direction.z as int,
        ) <= i64::MAX
    }

    /// Whether `self` is what a tick of travel at `velocity` along `direction`
    /// makes of `before`: the position advanced by speed times direction, and
    /// facing along the heading.
    pub open spec fn is_moved_from(
        self,
        before: CarTransform,
        velocity: Velocity,
        direction: Vector3,
    ) -> bool {
        &&& self.position.x == coordinate_after(
            before.position.x as int,
            velocity.speed as int,
            direction.x as int,
        )
        &&& self.position.y == coordinate_after(
            before.position.y as int,
            velocity.speed as int,
            direction.y as int,
        )
        &&& self.position.z == coordinate_after(
            before.position.z as int,
            velocity.speed as int,
            direction.z as int,
        )
        &&& self.yaw == velocity.heading
    }

    /// Decides `can_move`.
    pub fn fits(&self, velocity: &Velocity, direction: Vector3) -> (ok: bool)
        ensures
            ok == self.can_move(*velocity, direction),
    {
        let x: i128 = wide_coordinate_after(self.position.x, velocity.speed, direction.x);
        let y: i128 = wide_coordinate_after(self.position.y, velocity.speed, direction.y);
        let z: i128 = wide_coordinate_after(self.position.z, velocity.speed, direction.z);
        in_range(x) && in_range(y) && in_range(z)
    }
}

/// The product of two 64-bit integers lies within 126 bits.
proof fn lemma_product_bound(a: int, b: int)
    requires
        -0x8000_0000_0000_0000 <= a <= 0x7fff_ffff_ffff_ffff,
        -0x8000_0000_0000_0000 <= b <= 0x7fff_ffff_ffff_ffff,
    ensures
        -0x4000_0000_0000_0000_0000_0000_0000_0000 <= a * b
            <= 0x4000_0000_0000_0000_0000_0000_0000_0000,
{
    assert(-0x4000_0000_0000_0000_0000_0000_0000_0000 <= a * b
        <= 0x4000_0000_0000_0000_0000_0000_0000_0000) by (nonlinear_arith)
        requires
            -0x8000_0000_0000_0000 <= a <= 0x8000_0000_0000_0000,
            -0x8000_0000_0000_0000 <= b <= 0x8000_0000_0000_0000,
    {
        assert((0x8000_0000_0000_0000 - a) * (0x8000_0000_0000_0000 - b) >= 0);
        assert((0x8000_0000_0000_0000 + a) * (0x8000_0000_0000_0000 + b) >= 0);
        assert((0x8000_0000_0000_0000 - a) * (0x8000_0000_0000_0000 + b) >= 0);
        assert((0x8000_0000_0000_0000 + a) * (0x8000_0000_0000_0000 - b) >= 0);
    }
}

/// `coordinate_after`, computed without loss in 128 bits.
fn wide_coordinate_after(coordinate: i64, speed: i64, direction: i64) -> (wide: i128)
    ensures
        wide == coordinate_after(coordinate as int, speed as int, direction as int),
{
    proof {
        lemma_product_bound(speed as int, direction as int);
    }
    let travelled: i128 = (speed as i128) * (direction as i128);
    (coordinate as i128) + travelled
}

/// Whether a 128-bit value is a 64-bit one.
fn in_range(wide: i128) -> (ok: bool)
    ensures
        ok == (i64::MIN <= wide <= i64::MAX),
{
    -0x8000_0000_0000_0000 <= wide && wide <= 0x7fff_ffff_ffff_ffff
}

/// Moves the car by one tick of travel at `velocity` along `direction`, and
/// turns it to face along the heading.
///
/// `direction` is the direction of travel as a vector in millionths; for a
/// heading of zero it is `forward()`.
pub fn move_car(transform: &mut CarTransform, velocity: &Velocity, direction: Vector3)
    requires
        old(transform).can_move(*velocity, direction),
    ensures
        final(transform).is_moved_from(*old(transform), *velocity, direction),
{
    let x: i128 = wide_coordinate_after(transform.position.x, velocity.speed, direction.x);
    let y: i128 = wide_coordinate_after(transform.position.y, velocity.speed, direction.y);
    let z: i128 = wide_coordinate_after(transform.position.z, velocity.speed, direction.z);
    transform.position = Vector3 { x: x as i64, y: y as i64, z: z as i64 };
    transform.yaw = velocity.heading;
}

/// Moves the car as `move_car` does where the new position can be
/// represented, and says whether it did; otherwise `transform` is left as it
/// was.
pub fn move_car_checked(
    transform: &mut CarTransform,
    velocity: &Velocity,
    direction: Vector3,
) -> (moved: bool)
    ensures
        moved == old(transform).can_move(*velocity, direction),
        moved ==> final(transform).is_moved_from(*old(transform), *velocity, direction),
        !moved ==> *final(transform) == *old(transform),
{
    if transform.fits(velocity, direction) {
        move_car(transform, velocity, direction);
        true
    } else {
        false
    }
}

} // verus!
