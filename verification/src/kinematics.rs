//! The per-tick kinematics integrator.
//!
//! Each tick, every simulated entity advances its position by `vel * dt` and
//! composes the rotation step of `ang_vel * dt` onto its orientation.
//! Impulses are velocity-changing quantities already scaled by the caller's
//! time step: `force` adds `impulse / mass` to the velocity and `torque`
//! adds `impulse / moment` to the angular velocity.

use crate::fx::{fx_in_range, FX_ONE};
use crate::math::{
    qmul, qmul_s, qstep, qstep_s, vadd, vadd_s, vdiv, vdiv_s, vscale, vscale_s, Transform, Vec3,
};
use vstd::arithmetic::div_mod::{lemma_div_multiples_vanish, lemma_fundamental_div_mod};
use vstd::prelude::*;

verus! {

/// Kinematic state of one simulated entity.
#[derive(Clone, Copy, PartialEq, Eq, Structural, Debug)]
pub struct KinematicPhysics {
    /// Velocity.
    pub vel: Vec3,
    /// The mass of this object.
    pub mass: i64,
    /// Angular velocity, as a world-frame axis-angle rate.
    pub ang_vel: Vec3,
    /// Moment of inertia.
    pub moment: i64,
}

/// The state after an impulse: `impulse / mass` is added to the velocity.
pub open spec fn force_s(k: KinematicPhysics, f: Vec3) -> KinematicPhysics {
    KinematicPhysics { vel: vadd_s(k.vel, vdiv_s(f, k.mass as int)), ..k }
}

/// The state after an angular impulse: `impulse / moment` is added to the
/// angular velocity.
pub open spec fn torque_s(k: KinematicPhysics, t: Vec3) -> KinematicPhysics {
    KinematicPhysics { ang_vel: vadd_s(k.ang_vel, vdiv_s(t, k.moment as int)), ..k }
}

/// One integration step: the position advances by `vel * dt`, and the
/// rotation step of `ang_vel * dt` is composed onto the orientation.
pub open spec fn simulate_s(tf: Transform, k: KinematicPhysics, dt: int) -> Transform {
    Transform {
        pos: vadd_s(tf.pos, vscale_s(k.vel, dt)),
        orient: qmul_s(qstep_s(vscale_s(k.ang_vel, dt)), tf.orient),
    }
}

impl KinematicPhysics {
    /// Positive, representable mass and moment; representable velocities.
    pub open spec fn wf(self) -> bool {
        self.vel.wf() && self.ang_vel.wf() && 0 < self.mass <= crate::fx::FX_LIM && 0
            < self.moment <= crate::fx::FX_LIM
    }

    /// A resting body of the given mass, with its moment of inertia taken as
    /// `mass * r * r` for a bounding radius of one unit.
    pub fn new(mass: i64) -> (r: Self)
        requires
            0 < mass <= crate::fx::FX_LIM,
        ensures
            r == (KinematicPhysics {
                vel: Vec3::zero_s(),
                mass,
                ang_vel: Vec3::zero_s(),
                moment: mass,
            }),
            r.wf(),
    {
        Self { mass, vel: Vec3::zero(), ang_vel: Vec3::zero(), moment: mass }
    }

    /// Apply an impulse to this object: the velocity gains `f / mass`.
    pub fn force(&mut self, f: Vec3)
        requires
            old(self).wf(),
        ensures
            *final(self) == force_s(*old(self), f),
            final(self).wf(),
    {
        self.vel = vadd(self.vel, vdiv(f, self.mass));
    }

    /// Apply an angular impulse to this object: the angular velocity gains
    /// `t / moment`.
    pub fn torque(&mut self, t: Vec3)
        requires
            old(self).wf(),
        ensures
            *final(self) == torque_s(*old(self), t),
            final(self).wf(),
    {
        self.ang_vel = vadd(self.ang_vel, vdiv(t, self.moment));
    }
}

/// Advance one entity's placement by one tick of its kinematic state.
pub fn simulate(tf: &mut Transform, kine: &KinematicPhysics, dt: i64)
    ensures
        *final(tf) == simulate_s(*old(tf), *kine, dt as int),
        final(tf).wf(),
{
    tf.pos = vadd(tf.pos, vscale(kine.vel, dt));
    tf.orient = qmul(qstep(vscale(kine.ang_vel, dt)), tf.orient);
}

/// Add a constant acceleration, scaled by the time step, to the velocity.
pub fn gravity(kine: &mut KinematicPhysics, dt: i64, g: Vec3)
    ensures
        *final(kine) == (KinematicPhysics {
            vel: vadd_s(old(kine).vel, vscale_s(g, dt as int)),
            ..*old(kine)
        }),
        final(kine).vel.wf(),
{
    kine.vel = vadd(kine.vel, vscale(g, dt));
}

/// One fixed-point scalar round trip: multiplying a representable value by
/// the mass and dividing the product by the mass again returns the value
/// exactly, provided the product `mass * v` lands on a representable
/// fixed-point step.
proof fn lemma_scale_div_exact(m: int, v: int)
    requires
        0 < m <= crate::fx::FX_LIM as int,
        fx_in_range(v),
        (m * v) % (FX_ONE as int) == 0,
        fx_in_range((m * v) / (FX_ONE as int)),
    ensures
        crate::fx::fx_div_s(crate::fx::fx_mul_s(v, m), m) == v,
{
    let s = FX_ONE as int;
    let e = (v * m) / s;
    assert(v * m == m * v) by (nonlinear_arith);
    lemma_fundamental_div_mod(m * v, s);
    assert(m * v == s * e);
    assert(crate::fx::fx_mul_s(v, m) == e);
    assert(e * s == s * e) by (nonlinear_arith);
    assert((e * s) / m == (m * v) / m);
    lemma_div_multiples_vanish(v, m);
    assert((m * v) / m == v);
    assert(crate::fx::fx_div_s(e, m) == crate::fx::fx_clamp(v));
}

/// Integrator round trip: from rest, applying the impulse `mass * v` and
/// then one integration tick yields velocity exactly `v`, and advances the
/// position by `v * dt`. This holds whenever each component of `mass * v`
/// lands on a representable fixed-point step; a product that needs rounding
/// (say a mass of one and a half units against an odd velocity step) gains
/// or loses a fraction of one step and is excluded here.
pub proof fn lemma_force_integrate_round_trip(
    k: KinematicPhysics,
    v: Vec3,
    tf: Transform,
    dt: int,
)
    requires
        k.wf(),
        k.vel == Vec3::zero_s(),
        v.wf(),
        (k.mass * v.x) % (FX_ONE as int) == 0,
        (k.mass * v.y) % (FX_ONE as int) == 0,
        (k.mass * v.z) % (FX_ONE as int) == 0,
        fx_in_range((k.mass * v.x) / (FX_ONE as int)),
        fx_in_range((k.mass * v.y) / (FX_ONE as int)),
        fx_in_range((k.mass * v.z) / (FX_ONE as int)),
    ensures
        force_s(k, vscale_s(v, k.mass as int)).vel == v,
        simulate_s(tf, force_s(k, vscale_s(v, k.mass as int)), dt).pos == vadd_s(
            tf.pos,
            vscale_s(v, dt),
        ),
{
    let m = k.mass as int;
    lemma_scale_div_exact(m, v.x as int);
    lemma_scale_div_exact(m, v.y as int);
    lemma_scale_div_exact(m, v.z as int);
    let k2 = force_s(k, vscale_s(v, m));
    assert(k2.vel.x == v.x);
    assert(k2.vel.y == v.y);
    assert(k2.vel.z == v.z);
}

} // verus!
