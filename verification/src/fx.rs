//! Saturating signed fixed-point scalars.
//!
//! A world-space quantity `q` is stored as the `i64` value `q * FX_ONE`,
//! rounded toward negative infinity. Every operation clamps its result into
//! `[-FX_LIM, FX_LIM]`, so any value produced by this module stays in range
//! and no operation can overflow or panic.

use vstd::arithmetic::div_mod::{
    lemma_fundamental_div_mod, lemma_fundamental_div_mod_converse,
};
use vstd::prelude::*;

verus! {

/// Number of fixed-point steps per world unit.
pub const FX_ONE: i64 = 1000;

/// Largest magnitude a fixed-point scalar may take.
pub const FX_LIM: i64 = 0x1000000000000000;

/// Whether a mathematical value is representable as a fixed-point scalar.
pub open spec fn fx_in_range(x: int) -> bool {
    -(FX_LIM as int) <= x <= FX_LIM as int
}

/// Saturation into the representable range.
pub open spec fn fx_clamp(x: int) -> int {
    if x > FX_LIM as int {
        FX_LIM as int
    } else if x < -(FX_LIM as int) {
        -(FX_LIM as int)
    } else {
        x
    }
}

/// Saturating fixed-point addition.
pub open spec fn fx_add_s(a: int, b: int) -> int {
    fx_clamp(a + b)
}

/// Saturating fixed-point subtraction.
pub open spec fn fx_sub_s(a: int, b: int) -> int {
    fx_clamp(a - b)
}

/// Saturating fixed-point negation.
pub open spec fn fx_neg_s(a: int) -> int {
    fx_clamp(-a)
}

/// Saturating fixed-point absolute value.
pub open spec fn fx_abs_s(a: int) -> int {
    fx_clamp(if a < 0 { -a } else { a })
}

/// Saturating fixed-point multiplication: the product of the represented
/// quantities, rounded toward negative infinity.
pub open spec fn fx_mul_s(a: int, b: int) -> int {
    fx_clamp((a * b) / (FX_ONE as int))
}

/// Saturating fixed-point division by a positive divisor: the quotient of
/// the represented quantities, rounded toward negative infinity.
pub open spec fn fx_div_s(a: int, b: int) -> int
    recommends
        b > 0,
{
    fx_clamp((a * FX_ONE) / b)
}

/// Clamp a wide intermediate value into the fixed-point range.
fn clamp_wide(x: i128) -> (r: i64)
    ensures
        r == fx_clamp(x as int),
{
    if x > FX_LIM as i128 {
        FX_LIM
    } else if x < -(FX_LIM as i128) {
        -FX_LIM
    } else {
        x as i64
    }
}

/// Quotient of `a` by the positive divisor `b`, rounded toward negative
/// infinity; this matches mathematical (Euclidean) division.
fn div_floor_wide(a: i128, b: i128) -> (r: i128)
    requires
        b > 0,
        a > i128::MIN,
    ensures
        r == a as int / b as int,
{
    if a >= 0 {
        let q = (a as u128) / (b as u128);
        proof {
            lemma_fundamental_div_mod(a as int, b as int);
        }
        q as i128
    } else {
        let na = (-a) as u128;
        let bu = b as u128;
        let q = na / bu;
        let rem = na % bu;
        if rem == 0 {
            proof {
                lemma_fundamental_div_mod(na as int, b as int);
                assert(a as int == (-(q as int)) * (b as int) + 0) by (nonlinear_arith)
                    requires
                        na as int == q as int * b as int,
                        a as int == -(na as int);
                lemma_fundamental_div_mod_converse(a as int, b as int, -(q as int), 0);
            }
            -(q as i128)
        } else {
            proof {
                lemma_fundamental_div_mod(na as int, b as int);
                assert(a as int == (-(q as int) - 1) * (b as int) + (b as int - rem as int))
                    by (nonlinear_arith)
                    requires
                        na as int == q as int * b as int + rem as int,
                        a as int == -(na as int);
                lemma_fundamental_div_mod_converse(
                    a as int,
                    b as int,
                    -(q as int) - 1,
                    b as int - rem as int,
                );
            }
            -(q as i128) - 1
        }
    }
}

/// Saturating fixed-point addition.
pub fn fx_add(a: i64, b: i64) -> (r: i64)
    ensures
        r == fx_add_s(a as int, b as int),
{
    clamp_wide(a as i128 + b as i128)
}

/// Saturating fixed-point subtraction.
pub fn fx_sub(a: i64, b: i64) -> (r: i64)
    ensures
        r == fx_sub_s(a as int, b as int),
{
    clamp_wide(a as i128 - b as i128)
}

/// Saturating fixed-point negation.
pub fn fx_neg(a: i64) -> (r: i64)
    ensures
        r == fx_neg_s(a as int),
{
    clamp_wide(-(a as i128))
}

/// Saturating fixed-point absolute value.
pub fn fx_abs(a: i64) -> (r: i64)
    ensures
        r == fx_abs_s(a as int),
{
    if a < 0 {
        clamp_wide(-(a as i128))
    } else {
        clamp_wide(a as i128)
    }
}

/// Saturating fixed-point multiplication.
pub fn fx_mul(a: i64, b: i64) -> (r: i64)
    ensures
        r == fx_mul_s(a as int, b as int),
{
    proof {
        assert((a as int) * (b as int) > -0x40000000000000000000000000000000int)
            by (nonlinear_arith)
            requires
                -0x8000000000000000 <= a as int <= 0x7fffffffffffffff,
                -0x8000000000000000 <= b as int <= 0x7fffffffffffffff;
        assert((a as int) * (b as int) <= 0x40000000000000000000000000000000int)
            by (nonlinear_arith)
            requires
                -0x8000000000000000 <= a as int <= 0x7fffffffffffffff,
                -0x8000000000000000 <= b as int <= 0x7fffffffffffffff;
    }
    let p: i128 = (a as i128) * (b as i128);
    let q = div_floor_wide(p, FX_ONE as i128);
    clamp_wide(q)
}

/// Saturating fixed-point division by a positive divisor.
pub fn fx_div(a: i64, b: i64) -> (r: i64)
    requires
        b > 0,
    ensures
        r == fx_div_s(a as int, b as int),
{
    proof {
        assert(FX_ONE as int == 1000);
        assert(-0x40000000000000000000000000000000int <= (a as int) * 1000
            <= 0x40000000000000000000000000000000int);
    }
    let p: i128 = (a as i128) * (FX_ONE as i128);
    let q = div_floor_wide(p, b as i128);
    clamp_wide(q)
}

/// Multiplying by zero, or dividing zero, gives zero.
pub proof fn lemma_fx_zero(a: int)
    ensures
        fx_mul_s(a, 0) == 0,
        fx_mul_s(0, a) == 0,
        a > 0 ==> fx_div_s(0, a) == 0,
        fx_add_s(a, 0) == fx_clamp(a),
        fx_sub_s(a, a) == 0,
{
    assert(a * 0 == 0) by (nonlinear_arith);
    assert(0 * a == 0) by (nonlinear_arith);
    vstd::arithmetic::div_mod::lemma_div_of0(FX_ONE as int);
    if a > 0 {
        vstd::arithmetic::div_mod::lemma_div_of0(a);
    }
}

/// Integer square root, rounded down.
pub open spec fn sqrt_floor(n: nat) -> nat
    decreases n,
{
    if n == 0 {
        0
    } else {
        let s = sqrt_floor((n - 1) as nat);
        if (s + 1) * (s + 1) <= n {
            s + 1
        } else {
            s
        }
    }
}

/// `sqrt_floor(n)` is the unique `r` with `r * r <= n < (r + 1) * (r + 1)`.
pub proof fn lemma_sqrt_floor(n: nat)
    ensures
        sqrt_floor(n) * sqrt_floor(n) <= n,
        n < (sqrt_floor(n) + 1) * (sqrt_floor(n) + 1),
    decreases n,
{
    if n > 0 {
        lemma_sqrt_floor((n - 1) as nat);
        let s = sqrt_floor((n - 1) as nat);
        if (s + 1) * (s + 1) <= n {
            assert(sqrt_floor(n) == s + 1);
            assert(n < (s + 2) * (s + 2)) by (nonlinear_arith)
                requires
                    n <= (s + 1) * (s + 1);
            assert(sqrt_floor(n) * sqrt_floor(n) <= n);
            assert(n < (sqrt_floor(n) + 1) * (sqrt_floor(n) + 1));
        } else {
            assert(sqrt_floor(n) == s);
            assert(s * s <= n - 1);
            assert(sqrt_floor(n) * sqrt_floor(n) <= n);
            assert(n < (sqrt_floor(n) + 1) * (sqrt_floor(n) + 1));
        }
    } else {
        assert(sqrt_floor(n) == 0);
        assert(n < (sqrt_floor(n) + 1) * (sqrt_floor(n) + 1)) by (nonlinear_arith)
            requires
                n == 0,
                sqrt_floor(n) == 0;
    }
}

/// Any root that brackets `n` is the rounded-down square root of `n`.
pub proof fn lemma_sqrt_unique(n: nat, r: nat)
    requires
        r * r <= n,
        n < (r + 1) * (r + 1),
    ensures
        r == sqrt_floor(n),
{
    lemma_sqrt_floor(n);
    let s = sqrt_floor(n);
    if r < s {
        assert((r + 1) * (r + 1) <= s * s) by (nonlinear_arith)
            requires
                r + 1 <= s;
    } else if s < r {
        assert((s + 1) * (s + 1) <= r * r) by (nonlinear_arith)
            requires
                s + 1 <= r;
    }
}

/// Integer square root by bisection.
pub fn isqrt(n: u128) -> (r: u64)
    ensures
        r as nat == sqrt_floor(n as nat),
{
    let mut lo: u128 = 0;
    let mut hi: u128 = 0x10000000000000000;
    proof {
        assert((hi as int) * (hi as int) > n as int) by (nonlinear_arith)
            requires
                hi as int == 0x10000000000000000,
                n as int <= u128::MAX as int;
    }
    while hi - lo > 1
        invariant
            lo < hi <= 0x10000000000000000,
            (lo as int) * (lo as int) <= n as int,
            (hi as int) * (hi as int) > n as int,
        decreases hi - lo,
    {
        let mid = lo + (hi - lo) / 2;
        proof {
            assert((mid as int) * (mid as int) < 0x100000000000000000000000000000000)
                by (nonlinear_arith)
                requires
                    0 <= (mid as int) < 0x10000000000000000;
        }
        if mid * mid <= n {
            lo = mid;
        } else {
            hi = mid;
        }
    }
    proof {
        lemma_sqrt_unique(n as nat, lo as nat);
    }
    lo as u64
}

} // verus!
