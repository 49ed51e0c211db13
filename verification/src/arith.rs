//! Integer arithmetic as the machine does it, with its models.

use vstd::prelude::*;

verus! {

/// The magnitude of `v`.
pub open spec fn spec_abs(v: int) -> int {
    if v < 0 {
        -v
    } else {
        v
    }
}

/// `value` brought into `[value_min, value_max]`.
pub open spec fn spec_clamp(value: int, value_min: int, value_max: int) -> int {
    if value < value_min {
        value_min
    } else if value > value_max {
        value_max
    } else {
        value
    }
}

/// Quotient of machine division, which rounds towards zero.
pub open spec fn spec_div_trunc(a: int, b: int) -> int {
    if a >= 0 {
        if b > 0 {
            a / b
        } else {
            -(a / (-b))
        }
    } else if b > 0 {
        -((-a) / b)
    } else {
        (-a) / (-b)
    }
}

/// Remainder of machine division; it has the sign of the dividend.
pub open spec fn spec_rem_trunc(a: int, b: int) -> int {
    if a >= 0 {
        a % b
    } else {
        -((-a) % b)
    }
}

/// The largest integer whose square is at most `n`; 0 for a negative `n`.
pub open spec fn spec_isqrt(n: int) -> int
    decreases n,
{
    if n <= 0 {
        0
    } else {
        let s = spec_isqrt(n - 1);
        if (s + 1) * (s + 1) <= n {
            s + 1
        } else {
            s
        }
    }
}

/// The truncated remainder is smaller in magnitude than the divisor and has
/// the sign of the dividend.
pub proof fn lemma_rem_trunc_range(a: int, b: int)
    requires
        b != 0,
    ensures
        a >= 0 ==> 0 <= spec_rem_trunc(a, b) < spec_abs(b),
        a < 0 ==> -spec_abs(b) < spec_rem_trunc(a, b) <= 0,
{
    if a >= 0 {
        assert(0 <= a % b < spec_abs(b)) by (nonlinear_arith)
            requires
                b != 0,
        ;
    } else {
        let m = -a;
        assert(0 <= m % b < spec_abs(b)) by (nonlinear_arith)
            requires
                b != 0,
        ;
    }
}

/// The truncated quotient is no larger in magnitude than the dividend.
pub proof fn lemma_div_trunc_range(a: int, b: int)
    requires
        b != 0,
    ensures
        -spec_abs(a) <= spec_div_trunc(a, b) <= spec_abs(a),
{
    let m = spec_abs(a);
    let d = spec_abs(b);
    assert(0 <= m / d <= m) by (nonlinear_arith)
        requires
            d > 0,
            m >= 0,
    ;
}

/// `spec_isqrt(n)` is the integer square root of a natural number.
pub proof fn lemma_isqrt_bounds(n: int)
    requires
        n >= 0,
    ensures
        spec_isqrt(n) >= 0,
        spec_isqrt(n) * spec_isqrt(n) <= n,
        n < (spec_isqrt(n) + 1) * (spec_isqrt(n) + 1),
    decreases n,
{
    if n > 0 {
        lemma_isqrt_bounds(n - 1);
        let s = spec_isqrt(n - 1);
        assert((s + 1) * (s + 1) == s * s + 2 * s + 1) by (nonlinear_arith);
        assert((s + 2) * (s + 2) == s * s + 4 * s + 4) by (nonlinear_arith);
    }
}

/// Only one natural number has `n` between its square and the next square.
pub proof fn lemma_isqrt_unique(n: int, s: int)
    requires
        s >= 0,
        s * s <= n,
        n < (s + 1) * (s + 1),
    ensures
        s == spec_isqrt(n),
{
    assert(n >= 0) by (nonlinear_arith)
        requires
            s * s <= n,
    ;
    lemma_isqrt_bounds(n);
    let t = spec_isqrt(n);
    assert(s == t) by (nonlinear_arith)
        requires
            s >= 0,
            t >= 0,
            s * s <= n,
            n < (s + 1) * (s + 1),
            t * t <= n,
            n < (t + 1) * (t + 1),
    ;
}

/// Machine division, also where the divisor is negative.
pub fn div_trunc(a: i32, b: i32) -> (q: i32)
    requires
        b != 0,
        !(a == i32::MIN && b == -1),
    ensures
        q == spec_div_trunc(a as int, b as int),
{
    proof {
        lemma_div_trunc_range(a as int, b as int);
    }
    if b > 0 {
        a / b
    } else if b == i32::MIN {
        if a == i32::MIN {
            assert(0x8000_0000int / 0x8000_0000int == 1) by (nonlinear_arith);
            1
        } else {
            if a >= 0 {
                assert(a as int / 0x8000_0000int == 0) by (nonlinear_arith)
                    requires
                        0 <= a < 0x8000_0000,
                ;
            } else {
                assert((-a) as int / 0x8000_0000int == 0) by (nonlinear_arith)
                    requires
                        0 <= -a < 0x8000_0000,
                ;
            }
            0
        }
    } else {
        let q: i32 = a / (-b);
        assert(q > i32::MIN) by {
            if a == i32::MIN {
                assert(0x8000_0000int / (-b as int) <= 0x4000_0000) by (nonlinear_arith)
                    requires
                        -b as int >= 2,
                ;
            } else {
                lemma_div_trunc_range(a as int, -b as int);
            }
        }
        -q
    }
}

/// Machine division of wide integers that are well inside their type.
pub fn div_trunc_wide(a: i128, b: i128) -> (q: i128)
    requires
        b != 0,
        -0x1_0000_0000_0000_0000_0000_0000 < a < 0x1_0000_0000_0000_0000_0000_0000,
        -0x1_0000_0000_0000_0000_0000_0000 < b < 0x1_0000_0000_0000_0000_0000_0000,
    ensures
        q == spec_div_trunc(a as int, b as int),
{
    proof {
        lemma_div_trunc_range(a as int, b as int);
        lemma_div_trunc_range(a as int, -b as int);
    }
    if b > 0 {
        a / b
    } else {
        let q: i128 = a / (-b);
        -q
    }
}

/// The integer square root of `n`.
pub fn isqrt(n: u128) -> (s: u64)
    requires
        n < 0x1_0000_0000_0000_0000_0000,
    ensures
        s == spec_isqrt(n as int),
        s < 0x100_0000_0000,
{
    let mut lo: u128 = 0;
    let mut hi: u128 = 0x100_0000_0000;
    assert(0x100_0000_0000int * 0x100_0000_0000int == 0x1_0000_0000_0000_0000_0000int)
        by (nonlinear_arith);
    while hi - lo > 1
        invariant
            lo < hi <= 0x100_0000_0000,
            lo * lo <= n,
            n < hi * hi,
        decreases hi - lo,
    {
        let mid: u128 = lo + (hi - lo) / 2;
        assert(mid * mid < 0x1_0000_0000_0000_0000_0000) by (nonlinear_arith)
            requires
                mid < 0x100_0000_0000,
        ;
        if mid * mid <= n {
            lo = mid;
        } else {
            hi = mid;
        }
    }
    proof {
        lemma_isqrt_unique(n as int, lo as int);
    }
    lo as u64
}

} // verus!
