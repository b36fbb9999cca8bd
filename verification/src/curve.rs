//! The track: a closed, cyclic sequence of oriented control points.
//!
//! A fixed-point parameter `t` selects the pair of adjacent control points
//! `(floor(t) mod len, (floor(t) + 1) mod len)` and blends between them by
//! the fractional part of `t`, so the curve wraps around: adding one full
//! loop to the parameter gives the same sample.

use crate::fx::FX_ONE;
use crate::math::{dist_sq, dist_sq_s, tlerp, tlerp_s, Transform, Vec3};
use vstd::arithmetic::div_mod::{
    lemma_hoist_over_denominator, lemma_mod_multiples_vanish,
};
use vstd::prelude::*;

verus! {

/// A closed track of at least two oriented control points.
pub struct Curve {
    pub ctrlps: Vec<Transform>,
}

/// The control point pair bracketing parameter `t`: index behind.
pub open spec fn index_behind_s(t: int, len: int) -> int {
    (t / (FX_ONE as int)) % len
}

/// The control point pair bracketing parameter `t`: index in front.
pub open spec fn index_front_s(t: int, len: int) -> int {
    (t / (FX_ONE as int) + 1) % len
}

/// The curve sample at parameter `t`: the bracketing control points blended
/// by the fractional part of `t`.
pub open spec fn curve_lerp_s(pts: Seq<Transform>, t: int) -> Transform {
    tlerp_s(
        pts[index_behind_s(t, pts.len() as int)],
        pts[index_front_s(t, pts.len() as int)],
        t % (FX_ONE as int),
    )
}

/// The index in `[0, n)` of the control point nearest to `p`, scanning from
/// low to high and keeping the first of equally near candidates.
pub open spec fn nearest_upto_s(pts: Seq<Transform>, p: Vec3, n: int) -> int
    decreases n,
{
    if n <= 1 {
        0
    } else {
        let b = nearest_upto_s(pts, p, n - 1);
        if dist_sq_s(pts[n - 1].pos, p) < dist_sq_s(pts[b].pos, p) {
            n - 1
        } else {
            b
        }
    }
}

/// The index of the control point nearest to `p`, lowest index on ties.
pub open spec fn nearest_s(pts: Seq<Transform>, p: Vec3) -> int {
    nearest_upto_s(pts, p, pts.len() as int)
}

/// The nearest index is in range, minimizes the distance, and is the lowest
/// index doing so.
pub proof fn lemma_nearest_upto(pts: Seq<Transform>, p: Vec3, n: int)
    requires
        1 <= n <= pts.len(),
    ensures
        0 <= nearest_upto_s(pts, p, n) < n,
        forall|i: int|
            0 <= i < n ==> dist_sq_s(pts[nearest_upto_s(pts, p, n)].pos, p) <= #[trigger] dist_sq_s(
                pts[i].pos,
                p,
            ),
        forall|i: int|
            0 <= i < nearest_upto_s(pts, p, n) ==> #[trigger] dist_sq_s(pts[i].pos, p) > dist_sq_s(
                pts[nearest_upto_s(pts, p, n)].pos,
                p,
            ),
    decreases n,
{
    if n > 1 {
        lemma_nearest_upto(pts, p, n - 1);
    }
}

impl Curve {
    /// At least two control points, all representable; small enough that a
    /// fixed-point parameter can address every segment.
    pub open spec fn wf(&self) -> bool {
        2 <= self.ctrlps@.len() <= 1000000 && forall|i: int|
            0 <= i < self.ctrlps@.len() ==> self.ctrlps@[i].wf()
    }

    /// Build a track from its control points. A closed loop needs at least
    /// two of them; an empty or single-point track is disallowed here.
    pub fn new(ctrlps: Vec<Transform>) -> (r: Self)
        requires
            2 <= ctrlps@.len() <= 1000000,
            forall|i: int| 0 <= i < ctrlps@.len() ==> ctrlps@[i].wf(),
        ensures
            r.ctrlps@ == ctrlps@,
            r.wf(),
    {
        Self { ctrlps }
    }

    /// The indices of the control points behind and in front of parameter
    /// `t` respectively, wrapping around the loop.
    pub fn index(&self, t: i64) -> (r: (usize, usize))
        requires
            self.wf(),
            t >= 0,
        ensures
            r.0 == index_behind_s(t as int, self.ctrlps@.len() as int),
            r.1 == index_front_s(t as int, self.ctrlps@.len() as int),
            r.0 < self.ctrlps@.len(),
            r.1 < self.ctrlps@.len(),
    {
        let i: u64 = (t as u64) / (FX_ONE as u64);
        let len: u64 = self.ctrlps.len() as u64;
        let behind = (i % len) as usize;
        let in_front = ((i % len) + 1) % len;
        proof {
            let li = len as int;
            vstd::arithmetic::div_mod::lemma_mod_bound(i as int, li);
            vstd::arithmetic::div_mod::lemma_add_mod_noop(i as int, 1, li);
            vstd::arithmetic::div_mod::lemma_small_mod(1nat, li as nat);
        }
        (behind, in_front as usize)
    }

    /// Sample the track at parameter `t`: positions interpolate linearly and
    /// orientations along the shorter arc, between the two control points
    /// bracketing `t`, by the fractional part of `t`.
    pub fn lerp(&self, t: i64) -> (r: Transform)
        requires
            self.wf(),
            t >= 0,
        ensures
            r == curve_lerp_s(self.ctrlps@, t as int),
            r.wf(),
    {
        let (behind, in_front) = self.index(t);
        let frac: i64 = ((t as u64) % (FX_ONE as u64)) as i64;
        tlerp(&self.ctrlps[behind], &self.ctrlps[in_front], frac)
    }

    /// The index of the control point nearest to `pt` by Euclidean distance,
    /// by linear scan; ties go to the lowest index.
    pub fn nearest_ctrlp(&self, pt: Vec3) -> (r: usize)
        requires
            self.wf(),
            pt.wf(),
        ensures
            r == nearest_s(self.ctrlps@, pt),
            r < self.ctrlps@.len(),
    {
        let ghost pts = self.ctrlps@;
        let len = self.ctrlps.len();
        let mut smallest_idx: usize = 0;
        let mut smallest_dist: u128 = dist_sq(self.ctrlps[0].pos, pt);
        let mut idx: usize = 1;
        while idx < len
            invariant
                self.wf(),
                pt.wf(),
                pts == self.ctrlps@,
                len == pts.len(),
                1 <= idx <= len,
                smallest_idx == nearest_upto_s(pts, pt, idx as int),
                0 <= smallest_idx < idx,
                smallest_dist as int == dist_sq_s(pts[smallest_idx as int].pos, pt),
            decreases len - idx,
        {
            let d = dist_sq(self.ctrlps[idx].pos, pt);
            if d < smallest_dist {
                smallest_idx = idx;
                smallest_dist = d;
            }
            idx = idx + 1;
        }
        smallest_idx
    }
}

/// The track is a closed loop: sampling one full loop past `t` gives the
/// same placement as sampling at `t`.
pub proof fn lemma_lerp_periodic(pts: Seq<Transform>, t: int)
    requires
        pts.len() >= 1,
        t >= 0,
    ensures
        curve_lerp_s(pts, t + pts.len() * (FX_ONE as int)) == curve_lerp_s(pts, t),
{
    let s = FX_ONE as int;
    let len = pts.len() as int;
    let t2 = t + len * s;
    lemma_hoist_over_denominator(t, len, s as nat);
    assert(t2 / s == t / s + len);
    lemma_mod_multiples_vanish(1, t / s, len);
    assert((t / s + len) % len == (t / s) % len);
    lemma_mod_multiples_vanish(1, t / s + 1, len);
    assert((t / s + len + 1) % len == (t / s + 1) % len);
    lemma_mod_multiples_vanish(len, t, s);
    assert(t2 % s == t % s);
}

} // verus!
