// Tests for the physics step. All quantities are fixed-point ticks:
// 1000 ticks are one unit, so a viewport of 100 units is 100_000.

use square_physics::Square;
use square_physics::calculate_position;

// Free mode, pointer up, against the right wall: the position update leaves
// the travel range, the position clamps to `width - pad` exactly and the
// velocity flips with half its magnitude (restitution 0.5).
#[test]
fn boundary_clamp_right_wall() {
    let r = calculate_position(
        0, 0, false, 95_000, 50_000, 10_000, 0, 0, 0, false, 0, 0, 0, 500, 0, 0, 100_000, 100_000,
    );
    assert_eq!(r.x, 97_500);
    assert_eq!(r.x_velocity, -5_000);
    assert_eq!(r.y, 50_000);
    assert_eq!(r.y_velocity, 0);
}

// Same against the left wall: the position clamps to `pad` exactly.
#[test]
fn boundary_clamp_left_wall() {
    let r = calculate_position(
        0, 0, false, 0, 50_000, -10_000, 0, 0, 0, false, 0, 0, 0, 500, 0, 0, 100_000, 100_000,
    );
    assert_eq!(r.x, 2_500);
    assert_eq!(r.x_velocity, 5_000);
}

// A vertical bounce loses an extra tenth: restitution 0.5 leaves 4.5 units
// of the 10-unit approach instead of 5.
#[test]
fn boundary_clamp_bottom_extra_damping() {
    let r = calculate_position(
        0, 0, false, 50_000, 95_000, 0, 10_000, 0, 0, false, 0, 0, 0, 500, 0, 0, 100_000, 100_000,
    );
    assert_eq!(r.y, 97_500);
    assert_eq!(r.y_velocity, -4_500);
}

// A raw velocity far beyond +100 units saturates to exactly +100.
#[test]
fn velocity_saturates_high() {
    let r = calculate_position(
        0, 0, false, 5_000_000, 5_000_000, 1_000_000_000, 0, 0, 0, false, 0, 0, 0, 500, 0, 0,
        10_000_000, 10_000_000,
    );
    assert_eq!(r.x_velocity, 100_000);
    assert_eq!(r.x, 5_100_000);
}

// And beyond -100 units, to exactly -100.
#[test]
fn velocity_saturates_low() {
    let r = calculate_position(
        0, 0, false, 5_000_000, 5_000_000, -1_000_000_000, 0, 0, 0, false, 0, 0, 0, 500, 0, 0,
        10_000_000, 10_000_000,
    );
    assert_eq!(r.x_velocity, -100_000);
    assert_eq!(r.x, 4_900_000);
}

// Free mode with the pointer up: gravity is exactly zero wherever the
// pointer sits.
#[test]
fn no_gravity_while_pointer_up() {
    let r = calculate_position(
        1_000_000, -1_000_000, false, 30_000, 60_000, 5_000, -5_000, 7, -7, false, 0, 0, 100, 500,
        0, 0, 100_000, 100_000,
    );
    assert_eq!(r.x_gravity, 0);
    assert_eq!(r.y_gravity, 0);
}

// Free mode with the pointer down at half a unit right of center, the point
// at the center of a square viewport: gravity is 9.81 * 0.01 * 0.5 units,
// 49_050 ticks of a unit per hundred. Friction 1 zeroes the velocity, so the
// point stays put.
#[test]
fn pointer_gravity_exact_value() {
    let r = calculate_position(
        500_000, 0, true, 50_000, 50_000, 0, 0, 0, 0, false, 0, 0, 1_000, 500, 0, 0, 100_000,
        100_000,
    );
    assert_eq!(r.x_gravity, 49_050);
    assert_eq!(r.y_gravity, 0);
    assert_eq!(r.x_velocity, 0);
    assert_eq!(r.x, 50_000);
    assert_eq!(r.y, 50_000);
}

// A landscape viewport scales horizontal gravity by width / height.
#[test]
fn aspect_ratio_scales_gravity() {
    let r = calculate_position(
        100_000, 0, true, 100_000, 50_000, 0, 0, 0, 0, false, 0, 0, 1_000, 500, 0, 0, 200_000,
        100_000,
    );
    assert_eq!(r.x_gravity, 19_620);
    assert_eq!(r.y_gravity, 0);
}

// One resetting step from (10, 10) toward (0, 0) in a 20-unit viewport:
// gravity is 9.81 * (0 - 10) / 20 = -4.905; the proportional approach
// velocity is -10, which overshoots to the wall, so the position clamps to
// the pad (0.5) and the velocity bounces to 5 horizontally and 4.5
// vertically.
#[test]
fn resetting_step_exact_values() {
    let r = calculate_position(
        0, 0, false, 10_000, 10_000, 0, 0, 0, 0, true, 10_000, 10_000, 0, 500, 0, 0, 20_000,
        20_000,
    );
    assert_eq!(r.x_gravity, -4_905);
    assert_eq!(r.y_gravity, -4_905);
    assert_eq!(r.x, 500);
    assert_eq!(r.y, 500);
    assert_eq!(r.x_velocity, 5_000);
    assert_eq!(r.y_velocity, 4_500);
    assert!(r.is_resetting);
}

// Repeated resetting steps from (10, 10) toward (0, 0) converge: within a
// bounded number of steps the mode exits, and position, velocity and gravity
// snap to exactly zero.
#[test]
fn resetting_converges_and_snaps() {
    let mut s = Square {
        x: 10_000,
        y: 10_000,
        reset_from_x: 10_000,
        reset_from_y: 10_000,
        initial_x: 0,
        initial_y: 0,
        x_velocity: 0,
        y_velocity: 0,
        x_gravity: 0,
        y_gravity: 0,
        friction: 0,
        restitution: 500,
        is_resetting: true,
    };
    let mut steps: usize = 0;
    while s.is_resetting {
        assert!(steps < 10, "did not converge within ten steps");
        s = calculate_position(
            0,
            0,
            false,
            s.x,
            s.y,
            s.x_velocity,
            s.y_velocity,
            s.x_gravity,
            s.y_gravity,
            s.is_resetting,
            s.reset_from_x,
            s.reset_from_y,
            s.friction,
            s.restitution,
            s.initial_x,
            s.initial_y,
            20_000,
            20_000,
        );
        steps += 1;
    }
    assert_eq!(steps, 2);
    assert_eq!(s.x, 0);
    assert_eq!(s.y, 0);
    assert_eq!(s.x_velocity, 0);
    assert_eq!(s.y_velocity, 0);
    assert_eq!(s.x_gravity, 0);
    assert_eq!(s.y_gravity, 0);
    assert!(!s.is_resetting);
}

// At rest in free mode with the pointer up, a step changes nothing, however
// far away the pointer sits.
#[test]
fn rest_is_a_fixed_point() {
    let r = calculate_position(
        700_000, -300_000, false, 50_000, 60_000, 0, 0, 0, 0, false, 10_000, 20_000, 300, 800,
        30_000, 40_000, 100_000, 100_000,
    );
    let expected = Square {
        x: 50_000,
        y: 60_000,
        reset_from_x: 10_000,
        reset_from_y: 20_000,
        initial_x: 30_000,
        initial_y: 40_000,
        x_velocity: 0,
        y_velocity: 0,
        x_gravity: 0,
        y_gravity: 0,
        friction: 300,
        restitution: 800,
        is_resetting: false,
    };
    assert_eq!(r, expected);
}

// A 100-unit square, the point at the left edge moving right at 10 units per
// step, no friction, pointer up: gravity is zero, the velocity passes
// through unchanged, and the point lands at 10 units, well inside the
// travel range, so no wall is hit.
#[test]
fn free_step_from_left_edge() {
    let r = calculate_position(
        0, 0, false, 0, 50_000, 10_000, 0, 0, 0, false, 0, 0, 0, 500, 0, 50_000, 100_000, 100_000,
    );
    assert_eq!(r.x_gravity, 0);
    assert_eq!(r.y_gravity, 0);
    assert_eq!(r.x, 10_000);
    assert_eq!(r.y, 50_000);
    assert_eq!(r.x_velocity, 10_000);
    assert_eq!(r.y_velocity, 0);
    assert!(!r.is_resetting);
}

// The reset trajectory, resting position, friction and restitution fields
// pass through every step verbatim.
#[test]
fn passive_fields_pass_through() {
    let r = calculate_position(
        0, 0, true, 40_000, 40_000, 1_000, 2_000, 0, 0, false, 11_000, 12_000, 250, 750, 13_000,
        14_000, 100_000, 100_000,
    );
    assert_eq!(r.reset_from_x, 11_000);
    assert_eq!(r.reset_from_y, 12_000);
    assert_eq!(r.initial_x, 13_000);
    assert_eq!(r.initial_y, 14_000);
    assert_eq!(r.friction, 250);
    assert_eq!(r.restitution, 750);
}
