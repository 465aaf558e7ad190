//! The fixed layout of the scene the car drives through.
//!
//! Scene coordinates are in whole length units, except where a position is
//! that of the car, which is held at the scale of `CarTransform`.

use vstd::prelude::*;
use crate::motion::CarTransform;
use crate::vector::Vector3;

verus! {

/// Side length of the square ground plane.
pub const GROUND_SIZE: i64 = 50;

/// Edge length of each cube.
pub const CUBE_SIZE: i64 = 10;

/// Number of cubes along each side of the cube grid.
pub const CUBES_PER_SIDE: usize = 10;

/// Distance between neighbouring cubes along `x`.
pub const CUBE_SPACING_X: i64 = 100;

/// Distance between neighbouring cubes along `z`.
pub const CUBE_SPACING_Z: i64 = 50;

/// Height of every cube's centre, so that the cubes rest on the ground.
pub const CUBE_HEIGHT: i64 = 5;

/// Intensity of the point light.
pub const LIGHT_INTENSITY: i64 = 1500;

/// Radius of the capsule that is the car's body.
pub const BODY_RADIUS: i64 = 2;

/// Length of the cylinder between the two caps of the car's body.
pub const BODY_DEPTH: i64 = 5;

/// Centre of the cube in row `row` and column `column` of the grid.
pub open spec fn cube_position(row: int, column: int) -> Vector3 {
    Vector3 {
        x: (CUBE_SPACING_X * row) as i64,
        y: CUBE_HEIGHT,
        z: (CUBE_SPACING_Z * column) as i64,
    }
}

/// The centres of all cubes of the grid, row by row.
pub fn cube_positions() -> (cubes: Vec<Vector3>)
    ensures
        cubes@.len() == CUBES_PER_SIDE * CUBES_PER_SIDE,
        forall|row: int, column: int|
            0 <= row < CUBES_PER_SIDE && 0 <= column < CUBES_PER_SIDE ==> #[trigger] cubes@[row
                * CUBES_PER_SIDE + column] == cube_position(row, column),
{
    let mut cubes: Vec<Vector3> = Vec::new();
    let mut row: usize = 0;
    while row < CUBES_PER_SIDE
        invariant
            row <= CUBES_PER_SIDE,
            cubes@.len() == row * CUBES_PER_SIDE,
            forall|r: int, c: int|
                0 <= r < row && 0 <= c < CUBES_PER_SIDE ==> #[trigger] cubes@[r * CUBES_PER_SIDE
                    + c] == cube_position(r, c),
        decreases CUBES_PER_SIDE - row,
    {
        let mut column: usize = 0;
        while column < CUBES_PER_SIDE
            invariant
                row < CUBES_PER_SIDE,
                column <= CUBES_PER_SIDE,
                cubes@.len() == row * CUBES_PER_SIDE + column,
                forall|r: int, c: int|
                    0 <= r < row && 0 <= c < CUBES_PER_SIDE ==> #[trigger] cubes@[r
                        * CUBES_PER_SIDE + c] == cube_position(r, c),
                forall|c: int|
                    0 <= c < column ==> #[trigger] cubes@[row * CUBES_PER_SIDE + c]
                        == cube_position(row as int, c),
            decreases CUBES_PER_SIDE - column,
        {
            let x: i64 = CUBE_SPACING_X * (row as i64);
            let z: i64 = CUBE_SPACING_Z * (column as i64);
            cubes.push(Vector3 { x, y: CUBE_HEIGHT, z });
            column = column + 1;
        }
        row = row + 1;
    }
    cubes
}

/// Position of the point light.
pub fn light_position() -> (position: Vector3)
    ensures
        position == (Vector3 { x: 40, y: 80, z: 40 }),
{
    Vector3 { x: 40, y: 80, z: 40 }
}

/// Where the car starts: at (-20, 0, 50) length units, facing straight ahead.
pub fn player_start() -> (start: CarTransform)
    ensures
        start.position == (Vector3 { x: -20_000_000_000i64, y: 0, z: 50_000_000_000 }),
        start.yaw == 0,
{
    CarTransform {
        position: Vector3 { x: -20_000_000_000, y: 0, z: 50_000_000_000 },
        yaw: 0,
    }
}

/// Position of the camera relative to the car it follows.
pub fn camera_offset() -> (offset: Vector3)
    ensures
        offset == (Vector3 { x: 0, y: 7, z: 25 }),
{
    Vector3 { x: 0, y: 7, z: 25 }
}

/// The point, relative to the car, that the camera looks at.
pub fn camera_target() -> (target: Vector3)
    ensures
        target == (Vector3 { x: 0, y: 2, z: 0 }),
{
    Vector3 { x: 0, y: 2, z: 0 }
}

/// Position of the car's body relative to the car.
pub fn body_offset() -> (offset: Vector3)
    ensures
        offset == (Vector3 { x: 0, y: 2, z: 0 }),
{
    Vector3 { x: 0, y: 2, z: 0 }
}

} // verus!
