//! Tests of the fixed-point arithmetic, the track geometry, the integrator
//! and the flight controller.

use raceline::controls::ship_controller;
use raceline::curve::Curve;
use raceline::fx::{fx_abs, fx_add, fx_div, fx_mul, fx_neg, fx_sub, isqrt, FX_LIM, FX_ONE};
use raceline::kinematics::{gravity, simulate, KinematicPhysics};
use raceline::math::{sin_half_pi, vlen, vrot, Quat, Transform, Vec3};
use raceline::{InputAbstraction, ShipCharacteristics};

fn v(x: i64, y: i64, z: i64) -> Vec3 {
    Vec3 { x, y, z }
}

fn at(x: i64, y: i64, z: i64) -> Transform {
    Transform {
        pos: v(x, y, z),
        orient: Quat {
            w: FX_ONE,
            x: 0,
            y: 0,
            z: 0,
        },
    }
}

/// A straight test track along the X axis, control points ten units apart.
fn straight_track(n: usize) -> Curve {
    let mut pts = Vec::new();
    for i in 0..n {
        pts.push(at(i as i64 * 10 * FX_ONE, 0, 0));
    }
    Curve::new(pts)
}

fn test_ship() -> ShipCharacteristics {
    ShipCharacteristics {
        mass: 1000,
        moment: 9000,
        max_twirl: 5000,
        max_impulse: 30000,
    }
}

#[test]
fn fixed_point_rounds_toward_negative_infinity() {
    assert_eq!(fx_mul(1500, 500), 750);
    assert_eq!(fx_mul(1500, -500), -750);
    assert_eq!(fx_mul(999, 999), 998);
    assert_eq!(fx_mul(-999, 999), -999);
    assert_eq!(fx_div(1, 3), 333);
    assert_eq!(fx_div(-1, 3), -334);
    assert_eq!(fx_add(1, 2), 3);
    assert_eq!(fx_sub(1, 2), -1);
    assert_eq!(fx_neg(-7), 7);
    assert_eq!(fx_abs(-7), 7);
}

#[test]
fn fixed_point_saturates_at_the_limit() {
    assert_eq!(fx_add(FX_LIM, FX_LIM), FX_LIM);
    assert_eq!(fx_sub(-FX_LIM, FX_LIM), -FX_LIM);
    assert_eq!(fx_mul(FX_LIM, 2000), FX_LIM);
    assert_eq!(fx_mul(FX_LIM, -2000), -FX_LIM);
}

#[test]
fn integer_square_root_brackets() {
    assert_eq!(isqrt(0), 0);
    assert_eq!(isqrt(1), 1);
    assert_eq!(isqrt(10), 3);
    assert_eq!(isqrt(1_000_000), 1000);
    assert_eq!(isqrt(u128::MAX), u64::MAX);
}

#[test]
fn vector_length_is_euclidean() {
    assert_eq!(vlen(v(3000, 4000, 0)), 5000);
    assert_eq!(vlen(v(0, 0, 0)), 0);
    assert_eq!(vlen(v(-1000, 0, 0)), 1000);
}

#[test]
fn sine_approximation_hits_the_corners() {
    assert_eq!(sin_half_pi(0), 0);
    assert_eq!(sin_half_pi(1000), 1000);
    assert_eq!(sin_half_pi(-1000), -1000);
}

#[test]
fn identity_rotation_keeps_vectors() {
    let id = Quat {
        w: FX_ONE,
        x: 0,
        y: 0,
        z: 0,
    };
    assert_eq!(vrot(id, v(123, -456, 789)), v(123, -456, 789));
}

#[test]
fn quarter_turn_about_y_swaps_x_and_z() {
    // cos(45 deg) = sin(45 deg) ~ 0.707: a 90-degree rotation about Y.
    let q = Quat {
        w: 707,
        x: 0,
        y: 707,
        z: 0,
    };
    let r = vrot(q, v(1000, 0, 0));
    // X maps near -Z (small fixed-point rounding is expected).
    assert!(r.x.abs() < 5, "x was {}", r.x);
    assert_eq!(r.y, 0);
    assert!((r.z + 1000).abs() < 5, "z was {}", r.z);
}

#[test]
fn curve_index_wraps_modulo_length() {
    let c = straight_track(4);
    assert_eq!(c.index(2500), (2, 3));
    assert_eq!(c.index(3500), (3, 0));
    assert_eq!(c.index(0), (0, 1));
}

#[test]
fn curve_lerp_blends_positions() {
    let c = straight_track(4);
    let half = c.lerp(500);
    assert_eq!(half.pos, v(5000, 0, 0));
    let start = c.lerp(2000);
    assert_eq!(start.pos, v(20000, 0, 0));
}

#[test]
fn curve_lerp_is_periodic_over_one_loop() {
    let c = straight_track(4);
    for t in [0, 300, 999, 1500, 3999] {
        assert_eq!(c.lerp(t), c.lerp(t + 4 * FX_ONE));
    }
}

#[test]
fn nearest_control_point_breaks_ties_low() {
    let mut pts = Vec::new();
    pts.push(at(0, 0, 0));
    pts.push(at(0, 0, 0));
    pts.push(at(10000, 0, 0));
    let c = Curve::new(pts);
    assert_eq!(c.nearest_ctrlp(v(1, 0, 0)), 0);
    assert_eq!(c.nearest_ctrlp(v(9000, 0, 0)), 2);
}

#[test]
fn force_and_torque_scale_by_mass_and_moment() {
    let mut k = KinematicPhysics::new(2000);
    assert_eq!(k.moment, 2000);
    k.force(v(1000, -500, 0));
    assert_eq!(k.vel, v(500, -250, 0));
    k.torque(v(2000, 0, 0));
    assert_eq!(k.ang_vel, v(1000, 0, 0));
}

#[test]
fn integrator_round_trip_recovers_velocity_and_advances() {
    // Applying force(mass * v) from rest yields exactly v, and one tick
    // advances the position by v * dt.
    let mut k = KinematicPhysics::new(2000);
    let vel = v(500, -250, 0);
    let impulse = v(fx_mul(vel.x, k.mass), fx_mul(vel.y, k.mass), fx_mul(vel.z, k.mass));
    k.force(impulse);
    assert_eq!(k.vel, vel);
    let mut tf = at(0, 0, 0);
    simulate(&mut tf, &k, 100);
    assert_eq!(tf.pos, v(50, -25, 0));
    assert_eq!(
        tf.orient,
        Quat {
            w: FX_ONE,
            x: 0,
            y: 0,
            z: 0
        }
    );
}

#[test]
fn gravity_adds_scaled_acceleration() {
    let mut k = KinematicPhysics::new(1000);
    gravity(&mut k, 100, v(0, -9810, 0));
    assert_eq!(k.vel, v(0, -981, 0));
}

#[test]
fn boundary_recovery_fires_once_and_stops_the_ship() {
    let c = straight_track(2);
    let neutral = InputAbstraction::default();
    // Way above the track: vertical offset 20 units exceeds half height 5.
    let mut tf = at(0, 20 * FX_ONE, 0);
    let mut kt = KinematicPhysics::new(1000);
    kt.vel = v(4000, 4000, 0);
    kt.ang_vel = v(0, 0, 500);
    ship_controller(16, test_ship(), neutral, &c, &mut tf, &mut kt);
    assert_eq!(tf, at(0, 0, 0));
    assert_eq!(kt.vel, v(0, 0, 0));
    assert_eq!(kt.ang_vel, v(0, 0, 0));
    // A second neutral tick changes nothing: recovery fired exactly once.
    let (tf1, kt1) = (tf, kt);
    ship_controller(16, test_ship(), neutral, &c, &mut tf, &mut kt);
    assert_eq!(tf, tf1);
    assert_eq!(kt.vel, kt1.vel);
    assert_eq!(kt.ang_vel, kt1.ang_vel);
}

#[test]
fn recovery_with_held_throttle_still_snaps_the_position() {
    let c = straight_track(2);
    let mut input = InputAbstraction::default();
    input.throttle = 1000;
    let mut tf = at(0, 20 * FX_ONE, 0);
    let mut kt = KinematicPhysics::new(1000);
    kt.vel = v(4000, 4000, 0);
    ship_controller(16, test_ship(), input, &c, &mut tf, &mut kt);
    // The snap pins the position and clears the angular velocity; the held
    // throttle then re-accelerates the ship within the same tick.
    assert_eq!(tf, at(0, 0, 0));
    assert_eq!(kt.ang_vel, v(0, 0, 0));
    assert_eq!(kt.vel, v(480, 0, 0));
}

#[test]
fn throttle_in_deadzone_gives_no_thrust() {
    let c = straight_track(2);
    let mut input = InputAbstraction::default();
    input.throttle = 100; // exactly the deadzone: no thrust
    let mut tf = at(0, 0, 0);
    let mut kt = KinematicPhysics::new(1000);
    ship_controller(16, test_ship(), input, &c, &mut tf, &mut kt);
    assert_eq!(kt.vel, v(0, 0, 0));
}

#[test]
fn full_throttle_accelerates_forward() {
    let c = straight_track(2);
    let mut input = InputAbstraction::default();
    input.throttle = 1000;
    let mut tf = at(0, 0, 0);
    let mut kt = KinematicPhysics::new(1000);
    ship_controller(16, test_ship(), input, &c, &mut tf, &mut kt);
    // Impulse 30 clamped to 30, times dt 0.016 = 0.48, over mass 1.0.
    assert_eq!(kt.vel, v(480, 0, 0));
    assert_eq!(kt.ang_vel, v(0, 0, 0));
}

#[test]
fn roll_in_deadzone_gives_no_lateral_drift() {
    let c = straight_track(2);
    let mut input = InputAbstraction::default();
    input.roll = 50; // exactly the deadzone
    let mut tf = at(0, 0, 0);
    let mut kt = KinematicPhysics::new(1000);
    ship_controller(16, test_ship(), input, &c, &mut tf, &mut kt);
    assert_eq!(kt.vel, v(0, 0, 0));
}
