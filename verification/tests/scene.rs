use car_motion::motion::CarTransform;
use car_motion::scene::{
    body_offset, camera_offset, camera_target, cube_positions, light_position, player_start,
    BODY_DEPTH, BODY_RADIUS, CUBES_PER_SIDE, CUBE_HEIGHT, CUBE_SIZE, CUBE_SPACING_X,
    CUBE_SPACING_Z, GROUND_SIZE, LIGHT_INTENSITY,
};
use car_motion::vector::Vector3;

#[test]
fn scene_sizes_are_fixed() {
    assert_eq!(GROUND_SIZE, 50);
    assert_eq!(CUBE_SIZE, 10);
    assert_eq!(CUBES_PER_SIDE, 10);
    assert_eq!(CUBE_SPACING_X, 100);
    assert_eq!(CUBE_SPACING_Z, 50);
    assert_eq!(CUBE_HEIGHT, 5);
    assert_eq!(LIGHT_INTENSITY, 1500);
    assert_eq!(BODY_RADIUS, 2);
    assert_eq!(BODY_DEPTH, 5);
}

#[test]
fn there_are_a_hundred_cubes() {
    assert_eq!(cube_positions().len(), 100);
}

#[test]
fn cubes_stand_on_a_grid_row_by_row() {
    let cubes = cube_positions();
    assert_eq!(cubes[0], Vector3::new(0, 5, 0));
    assert_eq!(cubes[1], Vector3::new(0, 5, 50));
    assert_eq!(cubes[9], Vector3::new(0, 5, 450));
    assert_eq!(cubes[10], Vector3::new(100, 5, 0));
    assert_eq!(cubes[34], Vector3::new(300, 5, 200));
    assert_eq!(cubes[99], Vector3::new(900, 5, 450));
}

#[test]
fn every_cube_is_where_its_row_and_column_put_it() {
    let cubes = cube_positions();
    for row in 0..10_usize {
        for column in 0..10_usize {
            let expected = Vector3::new(100 * row as i64, 5, 50 * column as i64);
            assert_eq!(cubes[row * 10 + column], expected);
        }
    }
}

#[test]
fn light_hangs_above_the_scene() {
    assert_eq!(light_position(), Vector3::new(40, 80, 40));
}

#[test]
fn car_starts_beside_the_grid_facing_ahead() {
    let expected = CarTransform {
        position: Vector3::new(-20_000_000_000, 0, 50_000_000_000),
        yaw: 0,
    };
    assert_eq!(player_start(), expected);
}

#[test]
fn camera_sits_behind_and_above_the_car() {
    assert_eq!(camera_offset(), Vector3::new(0, 7, 25));
    assert_eq!(camera_target(), Vector3::new(0, 2, 0));
}

#[test]
fn body_sits_above_the_ground() {
    assert_eq!(body_offset(), Vector3::new(0, 2, 0));
}
