//! Fixed-point 3D vectors, quaternions and rigid transforms.
//!
//! Components are fixed-point scalars (see [`crate::fx`]); every operation
//! saturates, so results always stay representable. Orientation arithmetic is
//! quaternion based: composition is the Hamilton product, and rotation of a
//! vector `v` by `q` is the vector part of `q * v * conj(q)`. Interpolation
//! between orientations is normalized linear interpolation along the shorter
//! arc, and small rotations (one integration step of an angular velocity) use
//! a renormalized first-order expansion of the quaternion exponential.

use crate::fx::{
    fx_add, fx_add_s, fx_clamp, fx_div, fx_div_s, fx_in_range, fx_mul, fx_mul_s, fx_neg, fx_sub,
    fx_sub_s, isqrt, sqrt_floor, FX_LIM, FX_ONE,
};
use vstd::prelude::*;

verus! {

/// A 3D vector of fixed-point components.
#[derive(Clone, Copy, PartialEq, Eq, Structural, Debug)]
pub struct Vec3 {
    pub x: i64,
    pub y: i64,
    pub z: i64,
}

/// A quaternion of fixed-point components, `w` the scalar part.
#[derive(Clone, Copy, PartialEq, Eq, Structural, Debug)]
pub struct Quat {
    pub w: i64,
    pub x: i64,
    pub y: i64,
    pub z: i64,
}

/// A rigid placement: a position and an orientation.
#[derive(Clone, Copy, PartialEq, Eq, Structural, Debug)]
pub struct Transform {
    pub pos: Vec3,
    pub orient: Quat,
}

/// The square of an integer.
pub open spec fn sq(x: int) -> int {
    x * x
}

impl Vec3 {
    /// All components representable.
    pub open spec fn wf(self) -> bool {
        fx_in_range(self.x as int) && fx_in_range(self.y as int) && fx_in_range(self.z as int)
    }

    /// The zero vector.
    pub open spec fn zero_s() -> Vec3 {
        Vec3 { x: 0, y: 0, z: 0 }
    }

    /// The zero vector.
    pub fn zero() -> (r: Vec3)
        ensures
            r == Vec3::zero_s(),
    {
        Vec3 { x: 0, y: 0, z: 0 }
    }

    /// The unit vector along X, the forward axis.
    pub open spec fn unit_x_s() -> Vec3 {
        Vec3 { x: FX_ONE, y: 0, z: 0 }
    }

    /// The unit vector along X, the forward axis.
    pub fn unit_x() -> (r: Vec3)
        ensures
            r == Vec3::unit_x_s(),
    {
        Vec3 { x: FX_ONE, y: 0, z: 0 }
    }

    /// The unit vector along Y, the vertical axis.
    pub open spec fn unit_y_s() -> Vec3 {
        Vec3 { x: 0, y: FX_ONE, z: 0 }
    }

    /// The unit vector along Y, the vertical axis.
    pub fn unit_y() -> (r: Vec3)
        ensures
            r == Vec3::unit_y_s(),
    {
        Vec3 { x: 0, y: FX_ONE, z: 0 }
    }

    /// The unit vector along Z, the lateral axis.
    pub open spec fn unit_z_s() -> Vec3 {
        Vec3 { x: 0, y: 0, z: FX_ONE }
    }

    /// The unit vector along Z, the lateral axis.
    pub fn unit_z() -> (r: Vec3)
        ensures
            r == Vec3::unit_z_s(),
    {
        Vec3 { x: 0, y: 0, z: FX_ONE }
    }
}

impl Quat {
    /// All components representable.
    pub open spec fn wf(self) -> bool {
        fx_in_range(self.w as int) && fx_in_range(self.x as int) && fx_in_range(self.y as int)
            && fx_in_range(self.z as int)
    }

    /// The identity rotation.
    pub open spec fn identity_s() -> Quat {
        Quat { w: FX_ONE, x: 0, y: 0, z: 0 }
    }

    /// The identity rotation.
    pub fn identity() -> (r: Quat)
        ensures
            r == Quat::identity_s(),
    {
        Quat { w: FX_ONE, x: 0, y: 0, z: 0 }
    }
}

impl Transform {
    /// Both parts representable.
    pub open spec fn wf(self) -> bool {
        self.pos.wf() && self.orient.wf()
    }

    /// The identity placement: at the origin, unrotated.
    pub open spec fn identity_s() -> Transform {
        Transform { pos: Vec3::zero_s(), orient: Quat::identity_s() }
    }

    /// The identity placement: at the origin, unrotated.
    pub fn identity() -> (r: Transform)
        ensures
            r == Transform::identity_s(),
    {
        Transform { pos: Vec3::zero(), orient: Quat::identity() }
    }
}

/// Component-wise saturating vector addition.
pub open spec fn vadd_s(a: Vec3, b: Vec3) -> Vec3 {
    Vec3 {
        x: fx_add_s(a.x as int, b.x as int) as i64,
        y: fx_add_s(a.y as int, b.y as int) as i64,
        z: fx_add_s(a.z as int, b.z as int) as i64,
    }
}

/// Component-wise saturating vector addition.
pub fn vadd(a: Vec3, b: Vec3) -> (r: Vec3)
    ensures
        r == vadd_s(a, b),
        r.wf(),
{
    Vec3 { x: fx_add(a.x, b.x), y: fx_add(a.y, b.y), z: fx_add(a.z, b.z) }
}

/// Component-wise saturating vector subtraction.
pub open spec fn vsub_s(a: Vec3, b: Vec3) -> Vec3 {
    Vec3 {
        x: fx_sub_s(a.x as int, b.x as int) as i64,
        y: fx_sub_s(a.y as int, b.y as int) as i64,
        z: fx_sub_s(a.z as int, b.z as int) as i64,
    }
}

/// Component-wise saturating vector subtraction.
pub fn vsub(a: Vec3, b: Vec3) -> (r: Vec3)
    ensures
        r == vsub_s(a, b),
        r.wf(),
{
    Vec3 { x: fx_sub(a.x, b.x), y: fx_sub(a.y, b.y), z: fx_sub(a.z, b.z) }
}

/// Scale a vector by a fixed-point factor.
pub open spec fn vscale_s(v: Vec3, k: int) -> Vec3 {
    Vec3 {
        x: fx_mul_s(v.x as int, k) as i64,
        y: fx_mul_s(v.y as int, k) as i64,
        z: fx_mul_s(v.z as int, k) as i64,
    }
}

/// Scale a vector by a fixed-point factor.
pub fn vscale(v: Vec3, k: i64) -> (r: Vec3)
    ensures
        r == vscale_s(v, k as int),
        r.wf(),
{
    Vec3 { x: fx_mul(v.x, k), y: fx_mul(v.y, k), z: fx_mul(v.z, k) }
}

/// Divide a vector by a positive fixed-point scalar, component-wise.
pub open spec fn vdiv_s(v: Vec3, k: int) -> Vec3
    recommends
        k > 0,
{
    Vec3 {
        x: fx_div_s(v.x as int, k) as i64,
        y: fx_div_s(v.y as int, k) as i64,
        z: fx_div_s(v.z as int, k) as i64,
    }
}

/// Divide a vector by a positive fixed-point scalar, component-wise.
pub fn vdiv(v: Vec3, k: i64) -> (r: Vec3)
    requires
        k > 0,
    ensures
        r == vdiv_s(v, k as int),
        r.wf(),
{
    Vec3 { x: fx_div(v.x, k), y: fx_div(v.y, k), z: fx_div(v.z, k) }
}

/// Squared Euclidean distance between two points, exact.
pub open spec fn dist_sq_s(a: Vec3, b: Vec3) -> int {
    sq(a.x - b.x) + sq(a.y - b.y) + sq(a.z - b.z)
}

/// The square of the difference of two in-range scalars, exact.
fn sq_diff(a: i64, b: i64) -> (r: u128)
    requires
        fx_in_range(a as int),
        fx_in_range(b as int),
    ensures
        r as int == sq(a as int - b as int),
        r as int <= 0x4000000000000000000000000000000int,
{
    let d: i128 = a as i128 - b as i128;
    proof {
        assert(0 <= (d as int) * (d as int) <= 0x4000000000000000000000000000000int)
            by (nonlinear_arith)
            requires
                -0x2000000000000000 <= d as int <= 0x2000000000000000;
    }
    let p: i128 = d * d;
    p as u128
}

/// Squared Euclidean distance between two points, exact.
pub fn dist_sq(a: Vec3, b: Vec3) -> (r: u128)
    requires
        a.wf(),
        b.wf(),
    ensures
        r as int == dist_sq_s(a, b),
{
    let dx = sq_diff(a.x, b.x);
    let dy = sq_diff(a.y, b.y);
    let dz = sq_diff(a.z, b.z);
    dx + dy + dz
}

/// Euclidean length of a vector, rounded down, saturated.
pub open spec fn vlen_s(v: Vec3) -> int {
    fx_clamp(sqrt_floor((sq(v.x as int) + sq(v.y as int) + sq(v.z as int)) as nat) as int)
}

/// Euclidean length of a vector, rounded down, saturated.
pub fn vlen(v: Vec3) -> (r: i64)
    requires
        v.wf(),
    ensures
        r == vlen_s(v),
        0 <= r <= FX_LIM,
{
    let n = dist_sq(v, Vec3::zero());
    let s = isqrt(n);
    proof {
        assert(dist_sq_s(v, Vec3::zero_s()) == sq(v.x as int) + sq(v.y as int) + sq(v.z as int));
    }
    if s > FX_LIM as u64 {
        FX_LIM
    } else {
        s as i64
    }
}

/// Hamilton product of two quaternions, saturating per step.
pub open spec fn qmul_s(a: Quat, b: Quat) -> Quat {
    Quat {
        w: fx_sub_s(
            fx_sub_s(
                fx_sub_s(
                    fx_mul_s(a.w as int, b.w as int),
                    fx_mul_s(a.x as int, b.x as int),
                ),
                fx_mul_s(a.y as int, b.y as int),
            ),
            fx_mul_s(a.z as int, b.z as int),
        ) as i64,
        x: fx_sub_s(
            fx_add_s(
                fx_add_s(
                    fx_mul_s(a.w as int, b.x as int),
                    fx_mul_s(a.x as int, b.w as int),
                ),
                fx_mul_s(a.y as int, b.z as int),
            ),
            fx_mul_s(a.z as int, b.y as int),
        ) as i64,
        y: fx_add_s(
            fx_add_s(
                fx_sub_s(
                    fx_mul_s(a.w as int, b.y as int),
                    fx_mul_s(a.x as int, b.z as int),
                ),
                fx_mul_s(a.y as int, b.w as int),
            ),
            fx_mul_s(a.z as int, b.x as int),
        ) as i64,
        z: fx_add_s(
            fx_sub_s(
                fx_add_s(
                    fx_mul_s(a.w as int, b.z as int),
                    fx_mul_s(a.x as int, b.y as int),
                ),
                fx_mul_s(a.y as int, b.x as int),
            ),
            fx_mul_s(a.z as int, b.w as int),
        ) as i64,
    }
}

/// Hamilton product of two quaternions, saturating per step.
pub fn qmul(a: Quat, b: Quat) -> (r: Quat)
    ensures
        r == qmul_s(a, b),
        r.wf(),
{
    let w = fx_sub(
        fx_sub(fx_sub(fx_mul(a.w, b.w), fx_mul(a.x, b.x)), fx_mul(a.y, b.y)),
        fx_mul(a.z, b.z),
    );
    let x = fx_sub(
        fx_add(fx_add(fx_mul(a.w, b.x), fx_mul(a.x, b.w)), fx_mul(a.y, b.z)),
        fx_mul(a.z, b.y),
    );
    let y = fx_add(
        fx_add(fx_sub(fx_mul(a.w, b.y), fx_mul(a.x, b.z)), fx_mul(a.y, b.w)),
        fx_mul(a.z, b.x),
    );
    let z = fx_add(
        fx_sub(fx_add(fx_mul(a.w, b.z), fx_mul(a.x, b.y)), fx_mul(a.y, b.x)),
        fx_mul(a.z, b.w),
    );
    Quat { w, x, y, z }
}

/// Conjugate of a quaternion; for a unit quaternion this is its inverse.
pub open spec fn qconj_s(q: Quat) -> Quat {
    Quat {
        w: q.w,
        x: fx_clamp(-(q.x as int)) as i64,
        y: fx_clamp(-(q.y as int)) as i64,
        z: fx_clamp(-(q.z as int)) as i64,
    }
}

/// Conjugate of a quaternion; for a unit quaternion this is its inverse.
pub fn qconj(q: Quat) -> (r: Quat)
    requires
        q.wf(),
    ensures
        r == qconj_s(q),
        r.wf(),
{
    Quat { w: q.w, x: fx_neg(q.x), y: fx_neg(q.y), z: fx_neg(q.z) }
}

/// Rotate a vector by a quaternion: the vector part of `q * v * conj(q)`.
pub open spec fn vrot_s(q: Quat, v: Vec3) -> Vec3 {
    let p = qmul_s(qmul_s(q, Quat { w: 0, x: v.x, y: v.y, z: v.z }), qconj_s(q));
    Vec3 { x: p.x, y: p.y, z: p.z }
}

/// Rotate a vector by a quaternion: the vector part of `q * v * conj(q)`.
pub fn vrot(q: Quat, v: Vec3) -> (r: Vec3)
    requires
        q.wf(),
    ensures
        r == vrot_s(q, v),
        r.wf(),
{
    let p = qmul(qmul(q, Quat { w: 0, x: v.x, y: v.y, z: v.z }), qconj(q));
    Vec3 { x: p.x, y: p.y, z: p.z }
}

/// Squared norm of a quaternion, exact.
pub open spec fn qnorm_sq_s(q: Quat) -> int {
    sq(q.w as int) + sq(q.x as int) + sq(q.y as int) + sq(q.z as int)
}

/// A quaternion rescaled to unit length (the identity if it was zero).
pub open spec fn qnormalize_s(q: Quat) -> Quat {
    let n = fx_clamp(sqrt_floor(qnorm_sq_s(q) as nat) as int);
    if n == 0 {
        Quat::identity_s()
    } else {
        Quat {
            w: fx_div_s(q.w as int, n) as i64,
            x: fx_div_s(q.x as int, n) as i64,
            y: fx_div_s(q.y as int, n) as i64,
            z: fx_div_s(q.z as int, n) as i64,
        }
    }
}

/// A quaternion rescaled to unit length (the identity if it was zero).
pub fn qnormalize(q: Quat) -> (r: Quat)
    requires
        q.wf(),
    ensures
        r == qnormalize_s(q),
        r.wf(),
{
    let ww = sq_diff(q.w, 0);
    let xx = sq_diff(q.x, 0);
    let yy = sq_diff(q.y, 0);
    let zz = sq_diff(q.z, 0);
    let s = isqrt(ww + xx + yy + zz);
    let n: i64 = if s > FX_LIM as u64 {
        FX_LIM
    } else {
        s as i64
    };
    if n == 0 {
        Quat::identity()
    } else {
        Quat {
            w: fx_div(q.w, n),
            x: fx_div(q.x, n),
            y: fx_div(q.y, n),
            z: fx_div(q.z, n),
        }
    }
}

/// Saturating fixed-point dot product of two quaternions.
pub open spec fn qdot_s(a: Quat, b: Quat) -> int {
    fx_add_s(
        fx_add_s(
            fx_add_s(
                fx_mul_s(a.w as int, b.w as int),
                fx_mul_s(a.x as int, b.x as int),
            ),
            fx_mul_s(a.y as int, b.y as int),
        ),
        fx_mul_s(a.z as int, b.z as int),
    )
}

/// Component-wise negation of a quaternion: the same rotation, opposite sign.
pub open spec fn qneg_s(q: Quat) -> Quat {
    Quat {
        w: fx_clamp(-(q.w as int)) as i64,
        x: fx_clamp(-(q.x as int)) as i64,
        y: fx_clamp(-(q.y as int)) as i64,
        z: fx_clamp(-(q.z as int)) as i64,
    }
}

/// Normalized linear interpolation from `a` toward `b` by fixed-point rate
/// `t`, along the shorter arc. A rate of zero returns `a` unchanged.
pub open spec fn qlerp_s(a: Quat, b: Quat, t: int) -> Quat {
    if t == 0 {
        a
    } else {
        let c = if qdot_s(a, b) < 0 {
            qneg_s(b)
        } else {
            b
        };
        qnormalize_s(
            Quat {
                w: fx_add_s(a.w as int, fx_mul_s(t, fx_sub_s(c.w as int, a.w as int))) as i64,
                x: fx_add_s(a.x as int, fx_mul_s(t, fx_sub_s(c.x as int, a.x as int))) as i64,
                y: fx_add_s(a.y as int, fx_mul_s(t, fx_sub_s(c.y as int, a.y as int))) as i64,
                z: fx_add_s(a.z as int, fx_mul_s(t, fx_sub_s(c.z as int, a.z as int))) as i64,
            },
        )
    }
}

/// Normalized linear interpolation from `a` toward `b` by fixed-point rate
/// `t`, along the shorter arc. A rate of zero returns `a` unchanged.
pub fn qlerp(a: Quat, b: Quat, t: i64) -> (r: Quat)
    requires
        a.wf(),
    ensures
        r == qlerp_s(a, b, t as int),
        r.wf(),
{
    if t == 0 {
        return a;
    }
    let dot = fx_add(
        fx_add(fx_add(fx_mul(a.w, b.w), fx_mul(a.x, b.x)), fx_mul(a.y, b.y)),
        fx_mul(a.z, b.z),
    );
    let c = if dot < 0 {
        Quat { w: fx_neg(b.w), x: fx_neg(b.x), y: fx_neg(b.y), z: fx_neg(b.z) }
    } else {
        b
    };
    let m = Quat {
        w: fx_add(a.w, fx_mul(t, fx_sub(c.w, a.w))),
        x: fx_add(a.x, fx_mul(t, fx_sub(c.x, a.x))),
        y: fx_add(a.y, fx_mul(t, fx_sub(c.y, a.y))),
        z: fx_add(a.z, fx_mul(t, fx_sub(c.z, a.z))),
    };
    qnormalize(m)
}

/// Rotation about the local X (forward) axis by a small fixed-point angle:
/// a second-order expansion of `(cos(angle / 2), sin(angle / 2), 0, 0)`.
pub open spec fn qrotx_s(angle: int) -> Quat {
    let h = fx_mul_s(angle, 500);
    Quat {
        w: fx_sub_s(FX_ONE as int, fx_mul_s(fx_mul_s(h, h), 500)) as i64,
        x: h as i64,
        y: 0,
        z: 0,
    }
}

/// Rotation about the local X (forward) axis by a small fixed-point angle.
pub fn qrotx(angle: i64) -> (r: Quat)
    ensures
        r == qrotx_s(angle as int),
        r.wf(),
{
    let h = fx_mul(angle, 500);
    Quat { w: fx_sub(FX_ONE, fx_mul(fx_mul(h, h), 500)), x: h, y: 0, z: 0 }
}

/// The unit rotation advancing by the axis-angle step `u` (an angular
/// velocity already scaled by the time step): a renormalized first-order
/// expansion of the quaternion exponential of `u / 2`.
pub open spec fn qstep_s(u: Vec3) -> Quat {
    qnormalize_s(
        Quat {
            w: FX_ONE,
            x: fx_mul_s(u.x as int, 500) as i64,
            y: fx_mul_s(u.y as int, 500) as i64,
            z: fx_mul_s(u.z as int, 500) as i64,
        },
    )
}

/// The unit rotation advancing by the axis-angle step `u`.
pub fn qstep(u: Vec3) -> (r: Quat)
    ensures
        r == qstep_s(u),
        r.wf(),
{
    qnormalize(
        Quat { w: FX_ONE, x: fx_mul(u.x, 500), y: fx_mul(u.y, 500), z: fx_mul(u.z, 500) },
    )
}

/// Linear interpolation from `a` toward `b` by fixed-point rate `t`,
/// component-wise: `a + t * (b - a)`.
pub open spec fn vlerp_s(a: Vec3, b: Vec3, t: int) -> Vec3 {
    vadd_s(a, vscale_s(vsub_s(b, a), t))
}

/// Linear interpolation from `a` toward `b` by fixed-point rate `t`.
pub fn vlerp(a: Vec3, b: Vec3, t: i64) -> (r: Vec3)
    ensures
        r == vlerp_s(a, b, t as int),
        r.wf(),
{
    vadd(a, vscale(vsub(b, a), t))
}

/// Interpolation between two placements: positions linearly, orientations
/// along the shorter arc.
pub open spec fn tlerp_s(a: Transform, b: Transform, t: int) -> Transform {
    Transform { pos: vlerp_s(a.pos, b.pos, t), orient: qlerp_s(a.orient, b.orient, t) }
}

/// Interpolation between two placements: positions linearly, orientations
/// along the shorter arc.
pub fn tlerp(a: &Transform, b: &Transform, t: i64) -> (r: Transform)
    requires
        a.wf(),
    ensures
        r == tlerp_s(*a, *b, t as int),
        r.wf(),
{
    Transform { pos: vlerp(a.pos, b.pos, t), orient: qlerp(a.orient, b.orient, t) }
}

/// Rotating the zero vector gives the zero vector, whatever the rotation.
pub proof fn lemma_vrot_zero(q: Quat)
    ensures
        vrot_s(q, Vec3::zero_s()) == Vec3::zero_s(),
{
    crate::fx::lemma_fx_zero(q.w as int);
    crate::fx::lemma_fx_zero(q.x as int);
    crate::fx::lemma_fx_zero(q.y as int);
    crate::fx::lemma_fx_zero(q.z as int);
    let inner = qmul_s(q, Quat { w: 0, x: 0, y: 0, z: 0 });
    assert(inner == Quat { w: 0, x: 0, y: 0, z: 0 });
    let c = qconj_s(q);
    crate::fx::lemma_fx_zero(c.w as int);
    crate::fx::lemma_fx_zero(c.x as int);
    crate::fx::lemma_fx_zero(c.y as int);
    crate::fx::lemma_fx_zero(c.z as int);
    assert(qmul_s(inner, c) == Quat { w: 0, x: 0, y: 0, z: 0 });
}

/// Scaling any vector by a rate of zero gives the zero vector.
pub proof fn lemma_vscale_zero(v: Vec3)
    ensures
        vscale_s(v, 0) == Vec3::zero_s(),
{
    crate::fx::lemma_fx_zero(v.x as int);
    crate::fx::lemma_fx_zero(v.y as int);
    crate::fx::lemma_fx_zero(v.z as int);
}

/// Squared distance is nonnegative, and zero exactly between equal points.
pub proof fn lemma_dist_sq_zero(a: Vec3, b: Vec3)
    ensures
        dist_sq_s(a, b) >= 0,
        dist_sq_s(a, b) == 0 ==> a == b,
{
    assert(sq(a.x - b.x) >= 0 && (sq(a.x - b.x) == 0 ==> a.x == b.x)) by (nonlinear_arith);
    assert(sq(a.y - b.y) >= 0 && (sq(a.y - b.y) == 0 ==> a.y == b.y)) by (nonlinear_arith);
    assert(sq(a.z - b.z) >= 0 && (sq(a.z - b.z) == 0 ==> a.z == b.z)) by (nonlinear_arith);
}

/// A cubic fixed-point approximation of `sin(x * pi / 2)` for `x` in
/// `[-1, 1]`: `(3 * x - x * x * x) / 2`, exact at `-1`, `0` and `1`.
pub open spec fn sin_half_pi_s(x: int) -> int {
    fx_mul_s(fx_sub_s(fx_mul_s(3000, x), fx_mul_s(fx_mul_s(x, x), x)), 500)
}

/// A cubic fixed-point approximation of `sin(x * pi / 2)` for `x` in
/// `[-1, 1]`.
pub fn sin_half_pi(x: i64) -> (r: i64)
    ensures
        r == sin_half_pi_s(x as int),
{
    fx_mul(fx_sub(fx_mul(3000, x), fx_mul(fx_mul(x, x), x)), 500)
}

/// A point expressed in the local frame of a placement: undo the rotation of
/// the offset from the placement's position.
pub open spec fn to_local_s(f: Transform, p: Vec3) -> Vec3 {
    vrot_s(qconj_s(f.orient), vsub_s(p, f.pos))
}

/// A point expressed in the local frame of a placement.
pub fn to_local(f: &Transform, p: Vec3) -> (r: Vec3)
    requires
        f.wf(),
    ensures
        r == to_local_s(*f, p),
        r.wf(),
{
    vrot(qconj(f.orient), vsub(p, f.pos))
}

} // verus!
