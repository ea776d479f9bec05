//! Exact integer helpers for the movement discretization: integer square
//! root and round-to-nearest division.

use vstd::prelude::*;

use crate::position::abs_int;

verus! {

/// The integer square root: the largest `r` with `r * r <= n`.
pub open spec fn isqrt_spec(n: int) -> int
    decreases n,
{
    if n < 1 {
        0
    } else {
        let p = isqrt_spec(n - 1);
        if (p + 1) * (p + 1) <= n {
            p + 1
        } else {
            p
        }
    }
}

pub proof fn lemma_isqrt_bounds(n: int)
    requires
        n >= 0,
    ensures
        isqrt_spec(n) >= 0,
        isqrt_spec(n) * isqrt_spec(n) <= n,
        n < (isqrt_spec(n) + 1) * (isqrt_spec(n) + 1),
    decreases n,
{
    if n == 0 {
    } else {
        lemma_isqrt_bounds(n - 1);
        let p = isqrt_spec(n - 1);
        if (p + 1) * (p + 1) <= n {
            assert((p + 2) * (p + 2) > (p + 1) * (p + 1)) by (nonlinear_arith)
                requires
                    p >= 0,
            ;
            assert(n - 1 < (p + 1) * (p + 1));
            assert(n < (p + 2) * (p + 2));
        }
    }
}

pub proof fn lemma_isqrt_unique(n: int, r: int)
    requires
        n >= 0,
        r >= 0,
        r * r <= n,
        n < (r + 1) * (r + 1),
    ensures
        r == isqrt_spec(n),
{
    lemma_isqrt_bounds(n);
    let s = isqrt_spec(n);
    if r < s {
        assert((r + 1) * (r + 1) <= s * s) by (nonlinear_arith)
            requires
                0 <= r,
                r + 1 <= s,
        ;
    }
    if s < r {
        assert((s + 1) * (s + 1) <= r * r) by (nonlinear_arith)
            requires
                0 <= s,
                s + 1 <= r,
        ;
    }
}

/// The integer square root of a 64-bit value, by bisection.
pub fn isqrt64(n: u64) -> (r: u64)
    ensures
        r == isqrt_spec(n as int),
        r * r <= n,
        n < (r + 1) * (r + 1),
{
    let mut lo: u64 = 0;
    let mut hi: u64 = 0x1_0000_0000;
    proof {
        assert((0x1_0000_0000u64 as int) * (0x1_0000_0000u64 as int) > n as int);
    }
    while hi - lo > 1
        invariant
            lo < hi <= 0x1_0000_0000,
            lo * lo <= n,
            n < hi * hi,
        decreases hi - lo,
    {
        let mid: u64 = lo + (hi - lo) / 2;
        proof {
            assert(mid < hi);
            assert(mid * mid < 0x1_0000_0000u64 * 0x1_0000_0000u64) by (nonlinear_arith)
                requires
                    mid < 0x1_0000_0000u64,
            ;
        }
        if mid * mid <= n {
            lo = mid;
        } else {
            hi = mid;
        }
    }
    proof {
        assert(hi == lo + 1);
        lemma_isqrt_unique(n as int, lo as int);
    }
    lo
}

/// Division rounded to the nearest integer, ties away from zero, with the
/// sign of the numerator.
pub open spec fn div_round_spec(n: int, d: int) -> int
    recommends
        d > 0,
{
    if n >= 0 {
        (n + d / 2) / d
    } else {
        -((-n + d / 2) / d)
    }
}

pub fn div_round_nearest(n: i64, d: u64) -> (q: i64)
    requires
        1 <= d <= 0x1_0000_0000,
        -0x2000_0000_0000_0000 <= n <= 0x2000_0000_0000_0000,
    ensures
        q == div_round_spec(n as int, d as int),
        abs_int(q as int) <= abs_int(n as int),
{
    proof {
        lemma_div_round_bound(abs_int(n as int), d as int);
    }
    if n >= 0 {
        (((n as u64) + d / 2) / d) as i64
    } else {
        let m: u64 = (-n) as u64;
        -(((m + d / 2) / d) as i64)
    }
}

/// Rounded division never grows the magnitude: `(m + d/2) / d <= m` for a
/// positive divisor.
proof fn lemma_div_round_bound(m: int, d: int)
    requires
        m >= 0,
        d >= 1,
    ensures
        (m + d / 2) / d <= m,
{
    assert((m + d / 2) / d <= m) by (nonlinear_arith)
        requires
            m >= 0,
            d >= 1,
            d / 2 <= d - 1,
    ;
}

/// Clamps `v` into the closed interval `[lo, hi]`.
pub open spec fn clamp_int(v: int, lo: int, hi: int) -> int
    recommends
        lo <= hi,
{
    if v < lo {
        lo
    } else if v > hi {
        hi
    } else {
        v
    }
}

pub fn clamp_i64(v: i64, lo: i64, hi: i64) -> (c: i64)
    requires
        lo <= hi,
    ensures
        c == clamp_int(v as int, lo as int, hi as int),
        lo <= c <= hi,
{
    if v < lo {
        lo
    } else if v > hi {
        hi
    } else {
        v
    }
}

} // verus!
