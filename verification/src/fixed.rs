//! Fixed-point numbers with sixteen fractional bits.
//!
//! Every operation is total and saturates at the ends of the range in place
//! of overflowing; quotients and products round towards zero.

use crate::arith::{div_trunc_wide, isqrt, spec_abs, spec_div_trunc, spec_isqrt};
use crate::scalar::Scalar;
use vstd::arithmetic::power2::{
    lemma2_to64, lemma_pow2_pos, lemma_pow2_strictly_increases, lemma_pow2_unfold, pow2,
};
use vstd::prelude::*;

verus! {

/// The raw value of the number 1.
pub const FIXED_ONE: i64 = 0x1_0000;

/// A number `raw / 65536`.
#[derive(Copy, Clone, Debug, PartialEq, Eq, Structural)]
pub struct Fixed {
    pub raw: i64,
}

/// `v` brought into the range of `i64`.
pub open spec fn spec_saturate(v: int) -> i64 {
    if v > i64::MAX {
        i64::MAX
    } else if v < i64::MIN {
        i64::MIN
    } else {
        v as i64
    }
}

/// `v` brought into the range of `i32`.
pub open spec fn spec_saturate_i32(v: int) -> i32 {
    if v > i32::MAX {
        i32::MAX
    } else if v < i32::MIN {
        i32::MIN
    } else {
        v as i32
    }
}

fn saturate(v: i128) -> (r: i64)
    ensures
        r == spec_saturate(v as int),
{
    if v > i64::MAX as i128 {
        i64::MAX
    } else if v < i64::MIN as i128 {
        i64::MIN
    } else {
        v as i64
    }
}

fn saturate_i32(v: i128) -> (r: i32)
    ensures
        r == spec_saturate_i32(v as int),
{
    if v > i32::MAX as i128 {
        i32::MAX
    } else if v < i32::MIN as i128 {
        i32::MIN
    } else {
        v as i32
    }
}

/// Whether the sign bit of a single-precision pattern is set.
pub open spec fn spec_sign_bit(bits: u32) -> bool {
    (bits >> 31) != 0
}

/// The exponent field of a single-precision pattern.
pub open spec fn spec_exponent(bits: u32) -> u32 {
    (bits >> 23) & 0xff
}

/// The significand of a single-precision pattern as an integer, with the
/// hidden bit of a normal number put in.
pub open spec fn spec_significand(bits: u32) -> u64 {
    if spec_exponent(bits) == 0 {
        (bits & 0x7f_ffff) as u64
    } else {
        ((bits & 0x7f_ffff) | 0x80_0000) as u64
    }
}

/// The magnitude of the encoded number in units of 1/65536, rounded down:
/// the significand times two to the power of the exponent less 134. Where
/// that is beyond any `i64`, or the pattern is an infinity, the result is
/// `u64::MAX`; a not-a-number gives zero.
pub open spec fn spec_magnitude(bits: u32) -> u64 {
    let exponent = spec_exponent(bits);
    let significand = spec_significand(bits);
    if exponent == 0xff {
        if bits & 0x7f_ffff == 0 {
            u64::MAX
        } else {
            0
        }
    } else if exponent >= 174 {
        u64::MAX
    } else if exponent >= 134 {
        significand << ((exponent - 134) as u64)
    } else if exponent >= 110 {
        significand >> ((134 - exponent) as u64)
    } else {
        0
    }
}

/// The raw value with the given sign and magnitude, brought into the range
/// of `i64`.
pub open spec fn spec_signed(negative: bool, magnitude: u64) -> i64 {
    if magnitude > i64::MAX as u64 {
        if negative {
            i64::MIN
        } else {
            i64::MAX
        }
    } else if negative {
        (-(magnitude as int)) as i64
    } else {
        magnitude as i64
    }
}

fn magnitude(bits: u32) -> (m: u64)
    ensures
        m == spec_magnitude(bits),
{
    let exponent: u32 = (bits >> 23) & 0xff;
    let fraction: u32 = bits & 0x7f_ffff;
    let significand: u64 = if exponent == 0 {
        fraction as u64
    } else {
        (fraction | 0x80_0000) as u64
    };
    assert(exponent <= 0xff) by (bit_vector)
        requires
            exponent == (bits >> 23) & 0xff,
    ;
    if exponent == 0xff {
        if fraction == 0 {
            u64::MAX
        } else {
            0
        }
    } else if exponent >= 174 {
        u64::MAX
    } else if exponent >= 134 {
        significand << ((exponent - 134) as u64)
    } else if exponent >= 110 {
        significand >> ((134 - exponent) as u64)
    } else {
        0
    }
}

/// The position of the highest bit that is set in `m`; 0 for 0.
pub open spec fn spec_highest_bit(m: u64) -> nat
    decreases m,
{
    if m < 2 {
        0
    } else {
        1 + spec_highest_bit(m / 2)
    }
}

/// The fraction field for the magnitude `m` whose highest bit is `k`: the 23
/// bits below the highest.
pub open spec fn spec_fraction(m: u64, k: u32) -> u32 {
    if k >= 23 {
        ((m >> ((k - 23) as u64)) & 0x7f_ffff) as u32
    } else {
        ((m << ((23 - k) as u64)) & 0x7f_ffff) as u32
    }
}

/// The single-precision pattern of the number with the given sign and the
/// magnitude `m / 65536`, for `m` other than zero.
pub open spec fn spec_pack(negative: bool, m: u64) -> u32 {
    let k = spec_highest_bit(m) as u32;
    (if negative {
        0x8000_0000u32
    } else {
        0u32
    }) | (((k + 111) as u32) << 23u32) | spec_fraction(m, k)
}

fn highest_bit(m: u64) -> (k: u32)
    ensures
        k == spec_highest_bit(m),
        k <= 63,
{
    let mut t: u64 = m;
    let mut k: u32 = 0;
    proof {
        lemma2_to64();
    }
    while t >= 2
        invariant
            k + spec_highest_bit(t) == spec_highest_bit(m),
            t * pow2(k as nat) <= m,
            k <= 63,
        decreases t,
    {
        proof {
            // t >= 2, so m >= 2^(k + 1): k + 1 is below 64
            lemma_pow2_unfold((k + 1) as nat);
            lemma_pow2_pos(k as nat);
            assert(2 * pow2(k as nat) <= t * pow2(k as nat)) by (nonlinear_arith)
                requires
                    t >= 2,
                    pow2(k as nat) > 0,
            ;
            if k + 1 >= 64 {
                lemma2_to64();
                if k + 1 > 64 {
                    lemma_pow2_strictly_increases(64, (k + 1) as nat);
                }
                assert(false);
            }
            assert((t / 2) * (2 * pow2(k as nat)) <= t * pow2(k as nat)) by (nonlinear_arith)
                requires
                    pow2(k as nat) > 0,
                    t >= 0,
            ;
        }
        t = t / 2;
        k = k + 1;
    }
    k
}

fn pack(negative: bool, m: u64) -> (r: u32)
    requires
        m != 0,
    ensures
        r == spec_pack(negative, m),
{
    let k: u32 = highest_bit(m);
    let fraction: u32 = if k >= 23 {
        ((m >> ((k - 23) as u64)) & 0x7f_ffff) as u32
    } else {
        ((m << ((23 - k) as u64)) & 0x7f_ffff) as u32
    };
    let sign: u32 = if negative {
        0x8000_0000
    } else {
        0
    };
    sign | ((k + 111) << 23) | fraction
}

impl Fixed {
    /// The number `raw / 65536`.
    pub fn from_raw(raw: i64) -> (r: Fixed)
        ensures
            r.raw == raw,
    {
        Fixed { raw }
    }

    /// The number `numerator / denominator`, rounded towards zero.
    pub fn ratio(numerator: i32, denominator: i32) -> (r: Fixed)
        requires
            denominator != 0,
        ensures
            r.raw == spec_div_trunc(numerator as int * 0x1_0000, denominator as int),
    {
        let n: i128 = numerator as i128 * 0x1_0000;
        let q: i128 = div_trunc_wide(n, denominator as i128);
        proof {
            crate::arith::lemma_div_trunc_range(n as int, denominator as int);
        }
        Fixed { raw: q as i64 }
    }
}

impl Scalar for Fixed {
    open spec fn spec_zero() -> Self {
        Fixed { raw: 0 }
    }

    open spec fn spec_one() -> Self {
        Fixed { raw: FIXED_ONE }
    }

    open spec fn spec_plus(self, rhs: Self) -> Self {
        Fixed { raw: spec_saturate(self.raw + rhs.raw) }
    }

    open spec fn spec_minus(self, rhs: Self) -> Self {
        Fixed { raw: spec_saturate(self.raw - rhs.raw) }
    }

    open spec fn spec_times(self, rhs: Self) -> Self {
        Fixed { raw: spec_saturate(spec_div_trunc(self.raw * rhs.raw, 0x1_0000)) }
    }

    /// A division by zero gives the end of the range on the side of the
    /// dividend, and zero for a dividend of zero.
    open spec fn spec_over(self, rhs: Self) -> Self {
        Fixed {
            raw: if rhs.raw == 0 {
                if self.raw > 0 {
                    i64::MAX
                } else if self.raw < 0 {
                    i64::MIN
                } else {
                    0
                }
            } else {
                spec_saturate(spec_div_trunc(self.raw * 0x1_0000, rhs.raw as int))
            },
        }
    }

    open spec fn spec_negated(self) -> Self {
        Fixed { raw: spec_saturate(-self.raw) }
    }

    open spec fn spec_gt(self, rhs: Self) -> bool {
        self.raw > rhs.raw
    }

    open spec fn spec_ge(self, rhs: Self) -> bool {
        self.raw >= rhs.raw
    }

    open spec fn spec_same(self, rhs: Self) -> bool {
        self.raw == rhs.raw
    }

    open spec fn spec_from_i32(v: i32) -> Self {
        Fixed { raw: (v * 0x1_0000) as i64 }
    }

    /// The encoded number rounded towards zero. An infinity or a number
    /// beyond the range gives the end of the range on its side; a
    /// not-a-number gives zero.
    open spec fn spec_from_bits(bits: u32) -> Self {
        Fixed { raw: spec_signed(spec_sign_bit(bits), spec_magnitude(bits)) }
    }

    open spec fn spec_trunc_i32(self) -> i32 {
        spec_saturate_i32(spec_div_trunc(self.raw as int, 0x1_0000))
    }

    open spec fn spec_round_i32(self) -> i32 {
        spec_saturate_i32(
            spec_div_trunc(
                if self.raw >= 0 {
                    self.raw + 0x8000
                } else {
                    self.raw - 0x8000
                },
                0x1_0000,
            ),
        )
    }

    /// The square root rounded down; zero for a negative number.
    open spec fn spec_sqrt(self) -> Self {
        Fixed { raw: spec_isqrt(self.raw * 0x1_0000) as i64 }
    }

    /// The pattern of the number with its magnitude cut down to the 24
    /// highest bits.
    open spec fn spec_to_bits(self) -> u32 {
        if self.raw == 0 {
            0
        } else {
            spec_pack(self.raw < 0, spec_abs(self.raw as int) as u64)
        }
    }

    fn zero() -> (r: Self) {
        Fixed { raw: 0 }
    }

    fn one() -> (r: Self) {
        Fixed { raw: FIXED_ONE }
    }

    fn plus(self, rhs: Self) -> (r: Self) {
        Fixed { raw: saturate(self.raw as i128 + rhs.raw as i128) }
    }

    fn minus(self, rhs: Self) -> (r: Self) {
        Fixed { raw: saturate(self.raw as i128 - rhs.raw as i128) }
    }

    fn times(self, rhs: Self) -> (r: Self) {
        let a: i128 = self.raw as i128;
        let b: i128 = rhs.raw as i128;
        assert(-0x4000_0000_0000_0000_0000_0000_0000_0000 <= a * b
            <= 0x4000_0000_0000_0000_0000_0000_0000_0000) by (nonlinear_arith)
            requires
                -0x8000_0000_0000_0000 <= a <= 0x8000_0000_0000_0000,
                -0x8000_0000_0000_0000 <= b <= 0x8000_0000_0000_0000,
        ;
        let p: i128 = a * b;
        Fixed { raw: saturate(p / 0x1_0000) }
    }

    fn over(self, rhs: Self) -> (r: Self) {
        if rhs.raw == 0 {
            if self.raw > 0 {
                Fixed { raw: i64::MAX }
            } else if self.raw < 0 {
                Fixed { raw: i64::MIN }
            } else {
                Fixed { raw: 0 }
            }
        } else {
            let n: i128 = self.raw as i128 * 0x1_0000;
            Fixed { raw: saturate(div_trunc_wide(n, rhs.raw as i128)) }
        }
    }

    fn negated(self) -> (r: Self) {
        Fixed { raw: saturate(-(self.raw as i128)) }
    }

    fn gt(self, rhs: Self) -> (r: bool) {
        self.raw > rhs.raw
    }

    fn ge(self, rhs: Self) -> (r: bool) {
        self.raw >= rhs.raw
    }

    fn same(self, rhs: Self) -> (r: bool) {
        self.raw == rhs.raw
    }

    fn from_i32(v: i32) -> (r: Self) {
        Fixed { raw: v as i64 * 0x1_0000 }
    }

    fn from_bits(bits: u32) -> (r: Self) {
        let negative: bool = (bits >> 31) != 0;
        let magnitude: u64 = magnitude(bits);
        if magnitude > i64::MAX as u64 {
            if negative {
                Fixed { raw: i64::MIN }
            } else {
                Fixed { raw: i64::MAX }
            }
        } else if negative {
            Fixed { raw: -(magnitude as i64) }
        } else {
            Fixed { raw: magnitude as i64 }
        }
    }

    fn trunc_i32(self) -> (r: i32) {
        saturate_i32((self.raw / 0x1_0000) as i128)
    }

    fn round_i32(self) -> (r: i32) {
        let biased: i128 = if self.raw >= 0 {
            self.raw as i128 + 0x8000
        } else {
            self.raw as i128 - 0x8000
        };
        saturate_i32(biased / 0x1_0000)
    }

    fn sqrt(self) -> (r: Self) {
        if self.raw <= 0 {
            assert(self.raw * 0x1_0000 <= 0);
            assert(spec_isqrt(self.raw * 0x1_0000) == 0);
            Fixed { raw: 0 }
        } else {
            let root: u64 = isqrt(self.raw as u128 * 0x1_0000);
            Fixed { raw: root as i64 }
        }
    }

    fn to_bits(self) -> (r: u32) {
        if self.raw == 0 {
            0
        } else if self.raw == i64::MIN {
            pack(true, 0x8000_0000_0000_0000)
        } else if self.raw < 0 {
            pack(true, (-self.raw) as u64)
        } else {
            pack(false, self.raw as u64)
        }
    }
}

/// On fixed-point numbers "greater than" is a strict order.
pub proof fn lemma_fixed_strict_order()
    ensures
        crate::scalar::spec_strict_order::<Fixed>(),
{
}

} // verus!
