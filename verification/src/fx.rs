//! Fixed-point scalars: one world unit is `SCALE` counts of an `i64`.
//!
//! The helpers here are the only places the crate divides, so every
//! division in a contract elsewhere is the mathematical (Euclidean)
//! division of `int`.

use vstd::prelude::*;

verus! {

use vstd::arithmetic::div_mod::lemma_fundamental_div_mod;
use vstd::arithmetic::div_mod::lemma_fundamental_div_mod_converse_div;
use vstd::arithmetic::div_mod::lemma_div_is_ordered;
use vstd::arithmetic::div_mod::lemma_div_multiples_vanish;

/// Fixed-point unit: 1.0 world units.
pub const SCALE: i64 = 1_000_000;

/// Largest coordinate magnitude the crate works with (100 world units).
pub const MAX_COORD: i64 = 100_000_000;

/// Magnitude bound inside `div_scale`, far above anything the crate forms.
pub const DIV_RANGE: i64 = 1_000_000_000_000_000_000;

/// Floor division by `SCALE`, exact on the mathematical integers.
pub fn div_scale(a: i64) -> (r: i64)
    requires
        -DIV_RANGE <= a <= DIV_RANGE,
    ensures
        r == a as int / SCALE as int,
{
    if a >= 0 {
        let q: u64 = (a as u64) / (SCALE as u64);
        proof {
            lemma_fundamental_div_mod(a as int, SCALE as int);
        }
        q as i64
    } else {
        let n: u64 = (-a) as u64;
        let q: u64 = n / (SCALE as u64);
        let rem: u64 = n % (SCALE as u64);
        let qi: i64 = q as i64;
        if rem == 0 {
            proof {
                lemma_fundamental_div_mod(n as int, SCALE as int);
                lemma_fundamental_div_mod_converse_div(
                    a as int,
                    SCALE as int,
                    -(q as int),
                    0,
                );
            }
            -qi
        } else {
            proof {
                lemma_fundamental_div_mod(n as int, SCALE as int);
                lemma_fundamental_div_mod_converse_div(
                    a as int,
                    SCALE as int,
                    -(q as int) - 1,
                    SCALE as int - rem as int,
                );
            }
            -qi - 1
        }
    }
}

/// `|a * b| <= aa * bb` follows from `|a| <= aa` and `|b| <= bb`.
pub proof fn lemma_mul_bound(a: int, b: int, aa: int, bb: int)
    by (nonlinear_arith)
    requires
        -aa <= a <= aa,
        -bb <= b <= bb,
        0 <= aa,
        0 <= bb,
    ensures
        -(aa * bb) <= a * b <= aa * bb,
{
}

/// Dividing an `m * SCALE`-bounded value by `SCALE` lands in `[-m, m]`.
pub proof fn lemma_div_scale_bound(a: int, m: int)
    requires
        0 <= m,
        -(m * SCALE as int) <= a <= m * SCALE as int,
    ensures
        -m <= a / SCALE as int <= m,
{
    let s = SCALE as int;
    lemma_div_is_ordered(a, m * s, s);
    lemma_div_is_ordered(-(m * s), a, s);
    lemma_div_multiples_vanish(m, s);
    lemma_div_multiples_vanish(-m, s);
    assert(m * s == s * m) by (nonlinear_arith);
    assert(-(m * s) == s * -m) by (nonlinear_arith);
}

/// `(a * b) / SCALE`, exact floor division of the mathematical product.
pub fn mul_div_scale(a: i64, b: i64) -> (r: i64)
    requires
        -DIV_RANGE <= a * b <= DIV_RANGE,
    ensures
        r == (a as int * b as int) / SCALE as int,
{
    proof {
        lemma_i64_product_fits(a as int, b as int);
    }
    let p: i64 = a * b;
    div_scale(p)
}

/// A product bounded by `DIV_RANGE` keeps both factors small enough that
/// the `i64` multiplication cannot overflow.
proof fn lemma_i64_product_fits(a: int, b: int)
    by (nonlinear_arith)
    requires
        -DIV_RANGE <= a * b <= DIV_RANGE,
        i64::MIN <= a <= i64::MAX,
        i64::MIN <= b <= i64::MAX,
    ensures
        i64::MIN <= a * b <= i64::MAX,
{
}

/// Clamps `a` to `[lo, hi]`.
pub fn clamp(a: i64, lo: i64, hi: i64) -> (r: i64)
    requires
        lo <= hi,
    ensures
        r == clamp_s(a as int, lo as int, hi as int),
{
    if a < lo {
        lo
    } else if a > hi {
        hi
    } else {
        a
    }
}

/// Mathematical clamp of `a` to `[lo, hi]`.
pub open spec fn clamp_s(a: int, lo: int, hi: int) -> int {
    if a < lo {
        lo
    } else if a > hi {
        hi
    } else {
        a
    }
}

/// Euclidean remainder of `a` modulo `m`; always in `[0, m)`.
pub fn emod(a: i64, m: i64) -> (r: i64)
    requires
        0 < m,
        -DIV_RANGE <= a <= DIV_RANGE,
        m <= DIV_RANGE,
    ensures
        r == a as int % m as int,
{
    if a >= 0 {
        let r: u64 = (a as u64) % (m as u64);
        proof {
            lemma_fundamental_div_mod(a as int, m as int);
        }
        r as i64
    } else {
        let n: u64 = (-a) as u64;
        let rem: u64 = n % (m as u64);
        proof {
            lemma_fundamental_div_mod(n as int, m as int);
            let q = n as int / m as int;
            if rem == 0 {
                assert(a as int == (-q) * m as int + 0) by (nonlinear_arith)
                    requires
                        a == -(n as int),
                        n as int == m as int * q + rem as int,
                        rem == 0,
                ;
                vstd::arithmetic::div_mod::lemma_fundamental_div_mod_converse_mod(
                    a as int,
                    m as int,
                    -q,
                    0,
                );
            } else {
                assert(a as int == (-q - 1) * m as int + (m as int - rem as int))
                    by (nonlinear_arith)
                    requires
                        a == -(n as int),
                        n as int == m as int * q + rem as int,
                ;
                vstd::arithmetic::div_mod::lemma_fundamental_div_mod_converse_mod(
                    a as int,
                    m as int,
                    -q - 1,
                    m as int - rem as int,
                );
            }
        }
        if rem == 0 {
            0
        } else {
            m - (rem as i64)
        }
    }
}

/// Floor of the square root, defined by counting up.
pub open spec fn sqrt_floor(n: nat) -> nat
    decreases n,
{
    if n == 0 {
        0
    } else {
        let r = sqrt_floor((n - 1) as nat);
        if (r + 1) * (r + 1) <= n {
            r + 1
        } else {
            r
        }
    }
}

/// `sqrt_floor(n)` is the unique `r` with `r^2 <= n < (r+1)^2`.
pub proof fn lemma_sqrt_floor_bounds(n: nat)
    ensures
        sqrt_floor(n) * sqrt_floor(n) <= n,
        n < (sqrt_floor(n) + 1) * (sqrt_floor(n) + 1),
    decreases n,
{
    if n > 0 {
        lemma_sqrt_floor_bounds((n - 1) as nat);
        let r = sqrt_floor((n - 1) as nat);
        if (r + 1) * (r + 1) <= n {
            assert(sqrt_floor(n) == r + 1);
            assert(n < (r + 2) * (r + 2)) by (nonlinear_arith)
                requires
                    n < (r + 1) * (r + 1) + 1,
            ;
            assert(sqrt_floor(n) * sqrt_floor(n) <= n);
            assert(n < (sqrt_floor(n) + 1) * (sqrt_floor(n) + 1));
        } else {
            assert(sqrt_floor(n) == r);
            assert(sqrt_floor(n) * sqrt_floor(n) <= n);
            assert(n < (sqrt_floor(n) + 1) * (sqrt_floor(n) + 1));
        }
    } else {
        assert(sqrt_floor(0) == 0);
        assert((sqrt_floor(n) + 1) * (sqrt_floor(n) + 1) == 1) by (nonlinear_arith)
            requires
                sqrt_floor(n) == 0,
        ;
    }
}

/// Any `r` with `r^2 <= n < (r+1)^2` is `sqrt_floor(n)`.
pub proof fn lemma_sqrt_floor_unique(n: nat, r: nat)
    requires
        r * r <= n,
        n < (r + 1) * (r + 1),
    ensures
        r == sqrt_floor(n),
{
    lemma_sqrt_floor_bounds(n);
    let s = sqrt_floor(n);
    assert(r == s) by (nonlinear_arith)
        requires
            r * r <= n,
            n < (r + 1) * (r + 1),
            s * s <= n,
            n < (s + 1) * (s + 1),
    ;
}

/// Integer square root by bisection.
pub fn isqrt(n: u64) -> (r: u64)
    requires
        n < 0x4000_0000_0000_0000,
    ensures
        r == sqrt_floor(n as nat),
{
    let mut lo: u64 = 0;
    let mut hi: u64 = 0x8000_0000;
    proof {
        assert(0x8000_0000int * 0x8000_0000int == 0x4000_0000_0000_0000int) by (nonlinear_arith);
    }
    while lo + 1 < hi
        invariant
            lo < hi <= 0x8000_0000,
            (lo as int) * (lo as int) <= n as int,
            (n as int) < (hi as int) * (hi as int),
        decreases hi - lo,
    {
        let mid: u64 = lo + (hi - lo) / 2;
        proof {
            assert(mid * mid <= 0x8000_0000u64 * 0x8000_0000u64) by (nonlinear_arith)
                requires
                    0 <= mid <= 0x8000_0000u64,
            ;
        }
        if mid * mid <= n {
            lo = mid;
        } else {
            hi = mid;
        }
    }
    proof {
        lemma_sqrt_floor_unique(n as nat, lo as nat);
    }
    lo
}

/// A full turn of the angle scale (the trig below has period `TURN`).
pub const TURN: i64 = 4_000_000;

/// Largest angle magnitude the trig helpers accept.
pub const ANGLE_RANGE: i64 = 1_000_000_000;

/// Piecewise-linear cosine: `SCALE` at zero, `-SCALE` at half a turn,
/// linear in between, with period `TURN`.
pub open spec fn cosl_s(a: int) -> int {
    let m = a % (TURN as int);
    if m <= 2 * SCALE as int {
        SCALE - m
    } else {
        m - 3 * SCALE as int
    }
}

/// Piecewise-linear sine: the cosine shifted back a quarter turn.
pub open spec fn sinl_s(a: int) -> int {
    cosl_s(a - SCALE as int)
}

/// The piecewise-linear trig stays within one fixed-point unit.
pub proof fn lemma_trig_range(a: int)
    ensures
        -SCALE <= cosl_s(a) <= SCALE,
        -SCALE <= sinl_s(a) <= SCALE,
{
    vstd::arithmetic::div_mod::lemma_mod_bound(a, TURN as int);
    vstd::arithmetic::div_mod::lemma_mod_bound(a - SCALE as int, TURN as int);
}

/// Piecewise-linear cosine of an angle, exactly `cosl_s`.
pub fn cosl(a: i64) -> (r: i64)
    requires
        -ANGLE_RANGE <= a <= ANGLE_RANGE,
    ensures
        r == cosl_s(a as int),
        -SCALE <= r <= SCALE,
{
    proof {
        lemma_trig_range(a as int);
    }
    let m = emod(a, TURN);
    if m <= 2 * SCALE {
        SCALE - m
    } else {
        m - 3 * SCALE
    }
}

/// Piecewise-linear sine of an angle, exactly `sinl_s`.
pub fn sinl(a: i64) -> (r: i64)
    requires
        -ANGLE_RANGE + SCALE <= a <= ANGLE_RANGE,
    ensures
        r == sinl_s(a as int),
        -SCALE <= r <= SCALE,
{
    cosl(a - SCALE)
}

} // verus!
