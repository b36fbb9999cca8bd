//! The deterministic ship flight controller.
//!
//! One invocation per racing ship per tick turns the time step, the ship's
//! characteristics, the input vector and the track geometry into the ship's
//! next placement and kinematic state. It has no other effect. The stages,
//! in order: boundary recovery (a full stop-and-snap onto the nearest
//! control point, the only collision response), throttle thrust along the
//! ship's forward axis, steering toward a look-ahead sample of the track,
//! roll-driven lateral thrusters, and a vertical rail lock that cancels
//! vertical drift relative to the track.

use crate::curve::{curve_lerp_s, lemma_nearest_upto, nearest_s, Curve};
use crate::fx::{
    fx_abs, fx_abs_s, fx_add, fx_add_s, fx_div, fx_div_s, fx_mul, fx_mul_s, fx_sub, fx_sub_s,
    FX_ONE,
};
use crate::kinematics::{force_s, KinematicPhysics};
use crate::math::{
    dist_sq_s, qconj, qconj_s, qlerp, qlerp_s, qmul, qmul_s, qrotx, qrotx_s, sin_half_pi,
    sin_half_pi_s, to_local, to_local_s, vadd, vadd_s, vdiv, vdiv_s, vlen, vlen_s, vrot, vrot_s,
    vscale, vscale_s, vsub, vsub_s, Quat, Transform, Vec3,
};
use crate::{InputAbstraction, ShipCharacteristics};
use vstd::prelude::*;

verus! {

/// Half the track's width: how far a ship may stray laterally.
pub const TRACK_HALF_WIDTH: i64 = 16000;

/// Half the track's height: how far a ship may stray vertically.
pub const TRACK_HALF_HEIGHT: i64 = 5000;

/// The length of one track segment, the unit of the steering rate.
pub const TRACK_SEG_LEN: i64 = 10000;

/// Throttle magnitudes at or below this produce no thrust.
pub const THROTTLE_DEADZONE: i64 = 100;

/// Roll magnitudes at or below this count as no roll.
pub const ROLL_DEADZONE: i64 = 50;

/// The circle constant, in fixed-point steps.
pub const PI_FX: i64 = 3141;

/// How far ahead of the nearest control point the steering looks, as a
/// fixed-point curve parameter offset.
pub const LOOKAHEAD: i64 = 3500;

/// The ship's offset expressed in the frame of the nearest control point.
pub open spec fn local_offset_s(path: Seq<Transform>, pos: Vec3) -> Vec3 {
    to_local_s(path[nearest_s(path, pos)], pos)
}

/// Whether a position has left the track's cross-section around the nearest
/// control point: too far sideways or too far vertically.
pub open spec fn out_of_bounds_s(path: Seq<Transform>, pos: Vec3) -> bool {
    let l = local_offset_s(path, pos);
    fx_abs_s(l.z as int) > TRACK_HALF_WIDTH as int || fx_abs_s(l.y as int)
        > TRACK_HALF_HEIGHT as int
}

/// The roll the pilot asks for: the roll input outside the deadzone, else
/// none.
pub open spec fn desired_roll_s(input: InputAbstraction) -> int {
    if fx_abs_s(input.roll as int) > ROLL_DEADZONE as int {
        input.roll as int
    } else {
        0
    }
}

/// Boundary recovery: out of bounds, the ship snaps to the nearest control
/// point and stops dead; in bounds, nothing changes.
pub open spec fn recovery_s(path: Seq<Transform>, tf0: Transform, kt0: KinematicPhysics) -> (
    Transform,
    KinematicPhysics,
) {
    if out_of_bounds_s(path, tf0.pos) {
        (
            path[nearest_s(path, tf0.pos)],
            KinematicPhysics { vel: Vec3::zero_s(), ang_vel: Vec3::zero_s(), ..kt0 },
        )
    } else {
        (tf0, kt0)
    }
}

/// Throttle thrust: outside the deadzone, an impulse along the ship's
/// rotated forward axis, scaled by throttle and thrust limit,
/// magnitude-clamped to the thrust limit, scaled by the time step, and
/// applied through the mass. A zero-length direction gives no impulse.
pub open spec fn thrust_s(
    dt: int,
    ship: ShipCharacteristics,
    input: InputAbstraction,
    orient: Quat,
    kt: KinematicPhysics,
) -> KinematicPhysics {
    let force_live = fx_abs_s(input.throttle as int) > THROTTLE_DEADZONE as int;
    let wanted = if force_live {
        vscale_s(
            vscale_s(vrot_s(orient, Vec3::unit_x_s()), input.throttle as int),
            ship.max_impulse as int,
        )
    } else {
        Vec3::zero_s()
    };
    if wanted != Vec3::zero_s() {
        let len = vlen_s(wanted);
        let total = if len < ship.max_impulse as int {
            len
        } else {
            ship.max_impulse as int
        };
        let norm = if len > 0 {
            vdiv_s(wanted, len)
        } else {
            Vec3::zero_s()
        };
        force_s(kt, vscale_s(vscale_s(norm, total), dt))
    } else {
        kt
    }
}

/// Steering: ease the ship's orientation toward the look-ahead track sample
/// composed with the asked-for roll, at twice the track-speed rate.
pub open spec fn steer_s(
    path: Seq<Transform>,
    ni: int,
    orient: Quat,
    droll: int,
    lerp_speed: int,
) -> Quat {
    let future = curve_lerp_s(path, ni * (FX_ONE as int) + LOOKAHEAD as int);
    let wanted = qmul_s(
        future.orient,
        qrotx_s(fx_div_s(fx_mul_s(droll, PI_FX as int), 16 * FX_ONE as int)),
    );
    qlerp_s(orient, wanted, fx_mul_s(lerp_speed, 2 * FX_ONE as int))
}

/// Lateral thrusters and the vertical velocity lock: a direct velocity
/// change along the track's side axis driven by roll, then the track-frame
/// vertical velocity component cancelled outright.
pub open spec fn lateral_s(dt: int, droll: int, cp: Transform, trv: Vec3, vel: Vec3) -> Vec3 {
    let horiz = vrot_s(cp.orient, Vec3::unit_z_s());
    let power = fx_add_s(
        fx_add_s(fx_abs_s(trv.x as int), fx_abs_s(trv.z as int)),
        FX_ONE as int,
    );
    let vel3 = vadd_s(vel, vscale_s(horiz, fx_mul_s(fx_mul_s(dt, power), sin_half_pi_s(droll))));
    vsub_s(vel3, vscale_s(vrot_s(cp.orient, Vec3::unit_y_s()), trv.y as int))
}

/// The placement and kinematic state the flight controller leaves the ship
/// in, as a function of the tick inputs.
pub open spec fn ship_controller_s(
    dt: int,
    ship: ShipCharacteristics,
    input: InputAbstraction,
    path: Seq<Transform>,
    tf0: Transform,
    kt0: KinematicPhysics,
) -> (Transform, KinematicPhysics) {
    let ni = nearest_s(path, tf0.pos);
    let cp = path[ni];
    let (tf1, kt1) = recovery_s(path, tf0, kt0);
    let kt2 = thrust_s(dt, ship, input, tf1.orient, kt1);
    let trv = vrot_s(qconj_s(cp.orient), kt2.vel);
    let lerp_speed = fx_div_s(fx_mul_s(dt, trv.x as int), TRACK_SEG_LEN as int);
    let droll = desired_roll_s(input);
    let orient2 = steer_s(path, ni, tf1.orient, droll, lerp_speed);
    let vel4 = lateral_s(dt, droll, cp, trv, kt2.vel);
    let y2 = fx_add_s(
        tf1.pos.y as int,
        fx_mul_s(lerp_speed, fx_sub_s(cp.pos.y as int, tf1.pos.y as int)),
    );
    (
        Transform { pos: Vec3 { x: tf1.pos.x, y: y2 as i64, z: tf1.pos.z }, orient: orient2 },
        KinematicPhysics { vel: vel4, ..kt2 },
    )
}

/// Boundary recovery, executable: returns the nearest control point index.
fn recovery_step(path: &Curve, tf: &mut Transform, kt: &mut KinematicPhysics) -> (ni: usize)
    requires
        path.wf(),
        old(tf).wf(),
        old(kt).wf(),
    ensures
        ni == nearest_s(path.ctrlps@, old(tf).pos),
        ni < path.ctrlps@.len(),
        (*final(tf), *final(kt)) == recovery_s(path.ctrlps@, *old(tf), *old(kt)),
        final(tf).wf(),
        final(kt).wf(),
{
    let ni = path.nearest_ctrlp(tf.pos);
    let cp = path.ctrlps[ni];
    let local = to_local(&cp, tf.pos);
    if fx_abs(local.z) > TRACK_HALF_WIDTH || fx_abs(local.y) > TRACK_HALF_HEIGHT {
        *tf = cp;
        kt.vel = Vec3::zero();
        kt.ang_vel = Vec3::zero();
    }
    ni
}

/// Throttle thrust, executable.
fn thrust_step(
    dt: i64,
    ship: ShipCharacteristics,
    input: InputAbstraction,
    orient: Quat,
    kt: &mut KinematicPhysics,
)
    requires
        ship.wf(),
        orient.wf(),
        old(kt).wf(),
    ensures
        *final(kt) == thrust_s(dt as int, ship, input, orient, *old(kt)),
        final(kt).wf(),
{
    let force_live = fx_abs(input.throttle) > THROTTLE_DEADZONE;
    let wanted = if force_live {
        vscale(vscale(vrot(orient, Vec3::unit_x()), input.throttle), ship.max_impulse)
    } else {
        Vec3::zero()
    };
    if wanted != Vec3::zero() {
        let len = vlen(wanted);
        let total = if len < ship.max_impulse {
            len
        } else {
            ship.max_impulse
        };
        let norm = if len > 0 {
            vdiv(wanted, len)
        } else {
            Vec3::zero()
        };
        kt.force(vscale(vscale(norm, total), dt));
    }
}

/// Advance one racing ship by one tick: boundary recovery, thrust, steering,
/// lateral thrusters and the vertical rail lock, in that order. The steering
/// rate grows with the ship's forward speed along the track, on purpose:
/// steering authority scales with speed. Degenerate inputs never divide by
/// zero: a zero-length thrust direction simply produces no thrust impulse.
pub fn ship_controller(
    dt: i64,
    ship: ShipCharacteristics,
    input: InputAbstraction,
    path: &Curve,
    tf: &mut Transform,
    kt: &mut KinematicPhysics,
)
    requires
        path.wf(),
        old(tf).wf(),
        old(kt).wf(),
        ship.wf(),
    ensures
        (*final(tf), *final(kt)) == ship_controller_s(
            dt as int,
            ship,
            input,
            path.ctrlps@,
            *old(tf),
            *old(kt),
        ),
        final(tf).wf(),
        final(kt).wf(),
{
    let ni = recovery_step(path, tf, kt);
    let cp = path.ctrlps[ni];
    thrust_step(dt, ship, input, tf.orient, kt);

    // Roll input outside the deadzone.
    let droll = if fx_abs(input.roll) > ROLL_DEADZONE {
        input.roll
    } else {
        0
    };

    // Follow the track direction smoothly, looking a little ahead.
    let future = path.lerp((ni as i64) * FX_ONE + LOOKAHEAD);
    let wanted_orient = qmul(future.orient, qrotx(fx_div(fx_mul(droll, PI_FX), 16 * FX_ONE)));
    let trv = vrot(qconj(cp.orient), kt.vel);
    let lerp_speed = fx_div(fx_mul(dt, trv.x), TRACK_SEG_LEN);
    tf.orient = qlerp(tf.orient, wanted_orient, fx_mul(lerp_speed, 2 * FX_ONE));

    // Lateral thrusters: a direct velocity change along the track's side
    // axis, stronger the faster the ship already moves along the track.
    let horiz = vrot(cp.orient, Vec3::unit_z());
    let power = fx_add(fx_add(fx_abs(trv.x), fx_abs(trv.z)), FX_ONE);
    kt.vel = vadd(kt.vel, vscale(horiz, fx_mul(fx_mul(dt, power), sin_half_pi(droll))));

    // Vertical rail lock: cancel vertical drift relative to the track and
    // ease the world-space height toward the control point's.
    kt.vel = vsub(kt.vel, vscale(vrot(cp.orient, Vec3::unit_y()), trv.y));
    tf.pos.y = fx_add(tf.pos.y, fx_mul(lerp_speed, fx_sub(cp.pos.y, tf.pos.y)));
}

/// Input within both deadzones: no thrust and no roll asked for.
pub open spec fn neutral_input_s(input: InputAbstraction) -> bool {
    fx_abs_s(input.throttle as int) <= THROTTLE_DEADZONE as int && fx_abs_s(input.roll as int)
        <= ROLL_DEADZONE as int
}

/// A ship parked in bounds with no velocity and neutral input stays exactly
/// where it is: the controller is a fixed point there.
pub proof fn lemma_controller_parked(
    dt: int,
    ship: ShipCharacteristics,
    input: InputAbstraction,
    path: Seq<Transform>,
    tf: Transform,
    kt: KinematicPhysics,
)
    requires
        path.len() >= 1,
        neutral_input_s(input),
        kt.vel == Vec3::zero_s(),
        kt.ang_vel == Vec3::zero_s(),
        tf.wf(),
        !out_of_bounds_s(path, tf.pos),
    ensures
        ship_controller_s(dt, ship, input, path, tf, kt) == (tf, kt),
{
    let ni = nearest_s(path, tf.pos);
    let cp = path[ni];
    assert(recovery_s(path, tf, kt) == (tf, kt));
    assert(thrust_s(dt, ship, input, tf.orient, kt) == kt);
    crate::math::lemma_vrot_zero(qconj_s(cp.orient));
    let trv = vrot_s(qconj_s(cp.orient), kt.vel);
    assert(trv == Vec3::zero_s());
    crate::fx::lemma_fx_zero(dt);
    crate::fx::lemma_fx_zero(TRACK_SEG_LEN as int);
    let lerp_speed = fx_div_s(fx_mul_s(dt, 0), TRACK_SEG_LEN as int);
    assert(lerp_speed == 0);
    crate::fx::lemma_fx_zero(2 * FX_ONE as int);
    assert(fx_mul_s(0, 2 * FX_ONE as int) == 0);
    let droll = desired_roll_s(input);
    assert(droll == 0);
    assert(steer_s(path, ni, tf.orient, 0, 0) == tf.orient);
    crate::fx::lemma_fx_zero(0);
    crate::fx::lemma_fx_zero(3000);
    crate::fx::lemma_fx_zero(500);
    assert(sin_half_pi_s(0) == 0);
    let power = fx_add_s(fx_add_s(0, 0), FX_ONE as int);
    crate::fx::lemma_fx_zero(fx_mul_s(dt, power));
    assert(fx_mul_s(fx_mul_s(dt, power), 0) == 0);
    let horiz = vrot_s(cp.orient, Vec3::unit_z_s());
    crate::math::lemma_vscale_zero(horiz);
    let vup = vrot_s(cp.orient, Vec3::unit_y_s());
    crate::math::lemma_vscale_zero(vup);
    assert(lateral_s(dt, 0, cp, trv, kt.vel) == kt.vel);
    crate::fx::lemma_fx_zero(fx_sub_s(cp.pos.y as int, tf.pos.y as int));
    crate::fx::lemma_fx_zero(tf.pos.y as int);
    let r = ship_controller_s(dt, ship, input, path, tf, kt);
    assert(r.0.pos == tf.pos);
    assert(r.0.orient == tf.orient);
    assert(r.1.vel == kt.vel);
    assert(r.1 == kt);
    assert(r.0 == tf);
}

/// Boundary recovery fires exactly once. From out of bounds under neutral
/// input, one tick snaps the ship onto the nearest control point and leaves
/// both velocity and angular velocity at zero; the snapped position is back
/// in bounds; and a second neutral tick, with no recovery in between,
/// changes nothing at all. A non-neutral input is excluded: held throttle
/// re-accelerates the ship right after the snap, in the same tick.
pub proof fn lemma_recovery_fires_once(
    dt: int,
    ship: ShipCharacteristics,
    input: InputAbstraction,
    path: Seq<Transform>,
    tf: Transform,
    kt: KinematicPhysics,
    dt2: int,
    input2: InputAbstraction,
)
    requires
        path.len() >= 1,
        forall|i: int| 0 <= i < path.len() ==> path[i].wf(),
        neutral_input_s(input),
        neutral_input_s(input2),
        out_of_bounds_s(path, tf.pos),
    ensures
        ship_controller_s(dt, ship, input, path, tf, kt).0 == path[nearest_s(path, tf.pos)],
        ship_controller_s(dt, ship, input, path, tf, kt).1.vel == Vec3::zero_s(),
        ship_controller_s(dt, ship, input, path, tf, kt).1.ang_vel == Vec3::zero_s(),
        !out_of_bounds_s(path, ship_controller_s(dt, ship, input, path, tf, kt).0.pos),
        ship_controller_s(
            dt2,
            ship,
            input2,
            path,
            ship_controller_s(dt, ship, input, path, tf, kt).0,
            ship_controller_s(dt, ship, input, path, tf, kt).1,
        ) == ship_controller_s(dt, ship, input, path, tf, kt),
{
    let ni = nearest_s(path, tf.pos);
    lemma_nearest_upto(path, tf.pos, path.len() as int);
    let cp = path[ni];
    let kt1 = KinematicPhysics { vel: Vec3::zero_s(), ang_vel: Vec3::zero_s(), ..kt };
    assert(recovery_s(path, tf, kt) == (cp, kt1));
    assert(thrust_s(dt, ship, input, cp.orient, kt1) == kt1);
    crate::math::lemma_vrot_zero(qconj_s(cp.orient));
    let trv = vrot_s(qconj_s(cp.orient), kt1.vel);
    assert(trv == Vec3::zero_s());
    crate::fx::lemma_fx_zero(dt);
    crate::fx::lemma_fx_zero(TRACK_SEG_LEN as int);
    assert(fx_div_s(fx_mul_s(dt, 0), TRACK_SEG_LEN as int) == 0);
    crate::fx::lemma_fx_zero(2 * FX_ONE as int);
    assert(fx_mul_s(0, 2 * FX_ONE as int) == 0);
    assert(desired_roll_s(input) == 0);
    assert(steer_s(path, ni, cp.orient, 0, 0) == cp.orient);
    crate::fx::lemma_fx_zero(0);
    crate::fx::lemma_fx_zero(3000);
    crate::fx::lemma_fx_zero(500);
    assert(sin_half_pi_s(0) == 0);
    let power = fx_add_s(fx_add_s(0, 0), FX_ONE as int);
    crate::fx::lemma_fx_zero(fx_mul_s(dt, power));
    assert(fx_mul_s(fx_mul_s(dt, power), 0) == 0);
    crate::math::lemma_vscale_zero(vrot_s(cp.orient, Vec3::unit_z_s()));
    crate::math::lemma_vscale_zero(vrot_s(cp.orient, Vec3::unit_y_s()));
    assert(lateral_s(dt, 0, cp, trv, kt1.vel) == kt1.vel);
    crate::fx::lemma_fx_zero(fx_sub_s(cp.pos.y as int, cp.pos.y as int));
    crate::fx::lemma_fx_zero(cp.pos.y as int);
    let r = ship_controller_s(dt, ship, input, path, tf, kt);
    assert(r.0.pos == cp.pos);
    assert(r.0 == cp);
    assert(r.1 == kt1);

    // The snapped position coincides with its own nearest control point, so
    // its local offset is zero and it is back in bounds.
    let nj = nearest_s(path, cp.pos);
    lemma_nearest_upto(path, cp.pos, path.len() as int);
    assert(dist_sq_s(path[ni].pos, cp.pos) == 0);
    assert(dist_sq_s(path[nj].pos, cp.pos) <= 0);
    crate::math::lemma_dist_sq_zero(path[nj].pos, cp.pos);
    assert(path[nj].pos == cp.pos);
    assert(vsub_s(cp.pos, path[nj].pos) == Vec3::zero_s());
    crate::math::lemma_vrot_zero(qconj_s(path[nj].orient));
    assert(local_offset_s(path, cp.pos) == Vec3::zero_s());
    assert(!out_of_bounds_s(path, cp.pos));

    // A second neutral tick is a fixed point of the controller.
    lemma_controller_parked(dt2, ship, input2, path, cp, kt1);
}

/// The recovery snap pins the ship's position for the whole tick, whatever
/// the input: thrust and steering touch only velocity and orientation, and
/// the rail lock eases the height toward the control point's own height,
/// which it already has. So the tick ends exactly on the control point with
/// no angular velocity, back in bounds — and the recovery rule cannot fire
/// again on the next tick.
pub proof fn lemma_recovery_pins_position(
    dt: int,
    ship: ShipCharacteristics,
    input: InputAbstraction,
    path: Seq<Transform>,
    tf: Transform,
    kt: KinematicPhysics,
)
    requires
        path.len() >= 1,
        forall|i: int| 0 <= i < path.len() ==> path[i].wf(),
        out_of_bounds_s(path, tf.pos),
    ensures
        ship_controller_s(dt, ship, input, path, tf, kt).0.pos == path[nearest_s(
            path,
            tf.pos,
        )].pos,
        ship_controller_s(dt, ship, input, path, tf, kt).1.ang_vel == Vec3::zero_s(),
        !out_of_bounds_s(path, ship_controller_s(dt, ship, input, path, tf, kt).0.pos),
        recovery_s(
            path,
            ship_controller_s(dt, ship, input, path, tf, kt).0,
            ship_controller_s(dt, ship, input, path, tf, kt).1,
        ) == (
            ship_controller_s(dt, ship, input, path, tf, kt).0,
            ship_controller_s(dt, ship, input, path, tf, kt).1,
        ),
{
    let ni = nearest_s(path, tf.pos);
    lemma_nearest_upto(path, tf.pos, path.len() as int);
    let cp = path[ni];
    let kt1 = KinematicPhysics { vel: Vec3::zero_s(), ang_vel: Vec3::zero_s(), ..kt };
    assert(recovery_s(path, tf, kt) == (cp, kt1));
    let kt2 = thrust_s(dt, ship, input, cp.orient, kt1);
    assert(kt2.ang_vel == Vec3::zero_s());
    let trv = vrot_s(qconj_s(cp.orient), kt2.vel);
    let lerp_speed = fx_div_s(fx_mul_s(dt, trv.x as int), TRACK_SEG_LEN as int);
    crate::fx::lemma_fx_zero(lerp_speed);
    crate::fx::lemma_fx_zero(cp.pos.y as int);
    assert(fx_sub_s(cp.pos.y as int, cp.pos.y as int) == 0);
    let r = ship_controller_s(dt, ship, input, path, tf, kt);
    assert(r.0.pos == cp.pos);
    assert(r.1.ang_vel == Vec3::zero_s());

    // The snapped position coincides with its own nearest control point, so
    // its local offset is zero and it is back in bounds.
    let nj = nearest_s(path, cp.pos);
    lemma_nearest_upto(path, cp.pos, path.len() as int);
    assert(dist_sq_s(path[ni].pos, cp.pos) == 0);
    assert(dist_sq_s(path[nj].pos, cp.pos) <= 0);
    crate::math::lemma_dist_sq_zero(path[nj].pos, cp.pos);
    assert(path[nj].pos == cp.pos);
    assert(vsub_s(cp.pos, path[nj].pos) == Vec3::zero_s());
    crate::math::lemma_vrot_zero(qconj_s(path[nj].orient));
    assert(local_offset_s(path, cp.pos) == Vec3::zero_s());
    assert(!out_of_bounds_s(path, cp.pos));
}

} // verus!
