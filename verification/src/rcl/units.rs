//! Fixed-point helpers: clamping, wrapping, rounding, square root and
//! trigonometry.
//!
//! Sums, differences and products wrap around at the ends of `i32`, as the
//! machine's do; nothing here fails on a large number. A division asks for
//! a divisor other than zero and for a quotient that exists.

use crate::arith::{
    div_trunc, lemma_div_trunc_range, lemma_isqrt_unique, lemma_rem_trunc_range, spec_clamp,
    spec_div_trunc, spec_isqrt, spec_rem_trunc,
};
use vstd::prelude::*;

verus! {

/// The smallest spatial unit.
#[allow(non_camel_case_types)]
pub type RCL_Unit = i32;

/// A distance that counts as "never reached".
pub const RCL_INFINITY: RCL_Unit = 30000;

/// Units along one side of a grid square; also the units of a full turn and
/// the length of a normalized vector.
pub const RCL_UNITS_PER_SQUARE: RCL_Unit = 32;

/// Vertical field of view, in angle units.
pub const RCL_VERTICAL_FOV: RCL_Unit = 16;

/// Horizontal field of view, in angle units.
pub const RCL_HORIZONTAL_FOV: RCL_Unit = 8;

/// Half of the horizontal field of view.
pub const RCL_HORIZONTAL_FOV_HALF: RCL_Unit = 4;

/// Whether the machine can divide `a` by `b`: `b` is not zero, and the
/// quotient is not the one quotient that does not fit.
pub open spec fn spec_can_divide(a: i32, b: i32) -> bool {
    b != 0 && !(a == i32::MIN && b == -1)
}

/// The machine's quotient, rounded towards zero.
pub open spec fn spec_div(a: i32, b: i32) -> i32 {
    spec_div_trunc(a as int, b as int) as i32
}

/// `v`, or 1 in place of 0.
pub open spec fn spec_non_zero(v: i32) -> i32 {
    if v == 0 {
        1
    } else {
        v
    }
}

/// The magnitude of `v`; `i32::MIN` has none and stands for itself.
pub open spec fn spec_abs_val(v: i32) -> i32 {
    if v < 0 {
        0i32.wrapping_sub(v)
    } else {
        v
    }
}

/// `value` brought between `value_min` and `value_max`. Where the bounds
/// are out of order, a `value` below the lower bound gives the lower bound
/// and every other gives the upper.
pub open spec fn spec_rcl_clamp(value: i32, value_min: i32, value_max: i32) -> i32 {
    if value >= value_min {
        if value <= value_max {
            value
        } else {
            value_max
        }
    } else {
        value_min
    }
}

/// `value` wrapped into `[0, modulus)` for a positive modulus. A negative
/// `value` counts down from `modulus - 1`, so `-1` maps to `modulus - 2`
/// and `-modulus` to `modulus - 1`.
pub open spec fn spec_wrap(value: i32, modulus: i32) -> i32 {
    let below: i32 = if value < 0 {
        1
    } else {
        0
    };
    below.wrapping_mul(modulus).wrapping_add(
        spec_rem_trunc(value as int, modulus as int) as i32,
    ).wrapping_sub(below)
}

/// The quotient rounded towards zero, less one for every negative
/// dividend.
pub open spec fn spec_div_round_down(value: i32, divisor: i32) -> i32 {
    spec_div(value, divisor).wrapping_sub(
        if value >= 0 {
            0i32
        } else {
            1i32
        },
    )
}

/// Bhaskara's approximation of the cosine of a quarter turn, for an angle
/// of `x` units: `32 * (256 - 4 * x * x) / (256 + x * x)`.
pub open spec fn spec_trig_helper(x: i32) -> i32 {
    spec_div_trunc(32 * (256 - 4 * (x * x)), 256 + x * x) as i32
}

/// The cosine of an angle of `input` units (32 to the full turn), times 32.
pub open spec fn spec_cos_int(input: i32) -> i32 {
    let a = spec_wrap(input, RCL_UNITS_PER_SQUARE);
    if a < 8 {
        spec_trig_helper(a)
    } else if a < 16 {
        (-spec_trig_helper((16 - a) as i32)) as i32
    } else if a < 24 {
        (-spec_trig_helper((a - 16) as i32)) as i32
    } else {
        spec_trig_helper((32 - a) as i32)
    }
}

/// The sine of an angle of `input` units, times 32: the cosine a quarter
/// turn earlier.
pub open spec fn spec_sin_int(input: i32) -> i32 {
    spec_cos_int(input.wrapping_sub(8))
}

/// The angle of `degrees` degrees in units.
pub open spec fn spec_degrees_to_units_angle(degrees: i16) -> i32 {
    spec_div_trunc(degrees * 32, 360) as i32
}

/// What the size of an object is divided by at the distance `distance`.
pub open spec fn spec_perspective_divisor(distance: i32) -> i32 {
    spec_div(32i32.wrapping_mul(distance), RCL_UNITS_PER_SQUARE)
}

/// The size on screen of an object of the size `original_size` at the
/// distance `distance`; zero at the distance zero.
pub open spec fn spec_perspective_scale(original_size: i32, distance: i32) -> i32 {
    if distance != 0 {
        spec_div(
            original_size.wrapping_mul(RCL_UNITS_PER_SQUARE),
            spec_perspective_divisor(distance),
        )
    } else {
        0
    }
}

/// The distance at which an object of the size `original_size` has the size
/// `scaled_size` on screen; `RCL_INFINITY` for the size zero.
pub open spec fn spec_perspective_scale_inverse(original_size: i32, scaled_size: i32) -> i32 {
    if scaled_size != 0 {
        spec_div(
            original_size.wrapping_mul(RCL_UNITS_PER_SQUARE).wrapping_add(16i32),
            spec_perspective_divisor(scaled_size),
        )
    } else {
        RCL_INFINITY
    }
}

/// Replaces zero by one, to keep a divisor away from zero.
#[allow(non_snake_case)]
pub fn RCL_nonZero(v: RCL_Unit) -> (r: RCL_Unit)
    ensures
        r == spec_non_zero(v),
        r != 0,
{
    if v == 0 {
        1
    } else {
        v
    }
}

/// Replaces a negative value by zero.
#[allow(non_snake_case)]
pub fn RCL_zeroClamp(x: RCL_Unit) -> (r: RCL_Unit)
    ensures
        r == spec_clamp(x as int, 0, i32::MAX as int),
{
    if x >= 0 {
        x
    } else {
        0
    }
}

/// A hint for the branch predictor; the condition itself.
#[allow(non_snake_case)]
pub fn RCL_likely(cond: bool) -> (r: bool)
    ensures
        r == cond,
{
    cond
}

/// A hint for the branch predictor; the condition itself.
#[allow(non_snake_case)]
pub fn RCL_unlikely(cond: bool) -> (r: bool)
    ensures
        r == cond,
{
    cond
}

#[allow(non_snake_case)]
pub fn RCL_clamp(value: RCL_Unit, valueMin: RCL_Unit, valueMax: RCL_Unit) -> (r: RCL_Unit)
    ensures
        r == spec_rcl_clamp(value, valueMin, valueMax),
        valueMin <= valueMax ==> r == spec_clamp(value as int, valueMin as int, valueMax as int),
        valueMin <= valueMax ==> valueMin <= r <= valueMax,
{
    if value >= valueMin {
        if value <= valueMax {
            value
        } else {
            valueMax
        }
    } else {
        valueMin
    }
}

#[allow(non_snake_case)]
pub fn RCL_absVal(value: RCL_Unit) -> (r: RCL_Unit)
    ensures
        r == spec_abs_val(value),
        value != i32::MIN ==> r >= 0 && (r == value || r == -value),
{
    if value < 0 {
        0i32.wrapping_sub(value)
    } else {
        value
    }
}

/// Like the remainder, but a negative `value` wraps to the top of the range.
#[allow(non_snake_case)]
pub fn RCL_wrap(value: RCL_Unit, mod_: RCL_Unit) -> (r: RCL_Unit)
    requires
        spec_can_divide(value, mod_),
    ensures
        r == spec_wrap(value, mod_),
        mod_ > 0 ==> 0 <= r < mod_,
        mod_ > 0 && value >= 0 ==> r == value % mod_,
{
    let below: RCL_Unit = if value < 0 {
        1
    } else {
        0
    };
    let rem: RCL_Unit = value % mod_;
    proof {
        lemma_rem_trunc_range(value as int, mod_ as int);
    }
    below.wrapping_mul(mod_).wrapping_add(rem).wrapping_sub(below)
}

/// Division that rounds a negative quotient away from zero.
#[allow(non_snake_case)]
pub fn RCL_divRoundDown(value: RCL_Unit, divisor: RCL_Unit) -> (r: RCL_Unit)
    requires
        spec_can_divide(value, divisor),
    ensures
        r == spec_div_round_down(value, divisor),
{
    proof {
        lemma_div_trunc_range(value as int, divisor as int);
    }
    div_trunc(value, divisor).wrapping_sub(
        if value >= 0 {
            0
        } else {
            1
        },
    )
}

/// Bhaskara's cosine approximation for the first quarter turn.
#[allow(non_snake_case)]
pub fn trigHelper(x: RCL_Unit) -> (r: RCL_Unit)
    requires
        -4096 <= x <= 4096,
    ensures
        r == spec_trig_helper(x),
        0 <= x <= 8 ==> 0 <= r <= 32,
{
    assert(0 <= x * x <= 4096 * 4096) by (nonlinear_arith)
        requires
            -4096 <= x <= 4096,
    ;
    let xx: i32 = x * x;
    let num: i32 = RCL_UNITS_PER_SQUARE * (RCL_UNITS_PER_SQUARE / 2 * RCL_UNITS_PER_SQUARE / 2 - 4
        * xx);
    let den: i32 = RCL_UNITS_PER_SQUARE / 2 * RCL_UNITS_PER_SQUARE / 2 + xx;
    proof {
        lemma_div_trunc_range(num as int, den as int);
        if 0 <= x <= 8 {
            assert(0 <= xx <= 64) by (nonlinear_arith)
                requires
                    0 <= x <= 8,
                    xx == x * x,
            ;
            assert(0 <= num as int / den as int <= 32) by (nonlinear_arith)
                requires
                    0 <= xx <= 64,
                    num == 32 * (256 - 4 * xx),
                    den == 256 + xx,
            ;
        }
    }
    num / den
}

/// Cosine: takes an angle in units (32 to the full turn) and gives the
/// cosine times 32.
#[allow(non_snake_case)]
pub fn RCL_cosInt(input: RCL_Unit) -> (r: RCL_Unit)
    ensures
        r == spec_cos_int(input),
        -32 <= r <= 32,
{
    let input = RCL_wrap(input, RCL_UNITS_PER_SQUARE);
    if input < RCL_UNITS_PER_SQUARE / 4 {
        trigHelper(input)
    } else if input < RCL_UNITS_PER_SQUARE / 2 {
        -1 * trigHelper(RCL_UNITS_PER_SQUARE / 2 - input)
    } else if input < 3 * RCL_UNITS_PER_SQUARE / 4 {
        -1 * trigHelper(input - RCL_UNITS_PER_SQUARE / 2)
    } else {
        trigHelper(RCL_UNITS_PER_SQUARE - input)
    }
}

/// Sine: takes an angle in units and gives the sine times 32.
#[allow(non_snake_case)]
pub fn RCL_sinInt(input: RCL_Unit) -> (r: RCL_Unit)
    ensures
        r == spec_sin_int(input),
        -32 <= r <= 32,
{
    RCL_cosInt(input.wrapping_sub(RCL_UNITS_PER_SQUARE / 4))
}

/// Whether `g` is a power of two up to 65536.
pub open spec fn spec_root_weight(g: int) -> bool {
    g == 1 || g == 2 || g == 4 || g == 8 || g == 16 || g == 32 || g == 64 || g == 128 || g == 256
        || g == 512 || g == 1024 || g == 2048 || g == 4096 || g == 8192 || g == 16384 || g == 32768
        || g == 65536
}

proof fn lemma_root_weight(g: int, b: int)
    requires
        spec_root_weight(g),
        g >= 2,
        4 * b == g * g,
    ensures
        g % 2 == 0,
        spec_root_weight(g / 2),
        b == (g / 2) * (g / 2),
        g / 2 >= 2 ==> 4 * (b / 4) == (g / 2) * (g / 2),
        g / 2 == 1 ==> b / 4 == 0,
        b >= 1,
{
    if g == 2 {
        assert(g * g == 4 && (g / 2) * (g / 2) == 1) by (nonlinear_arith)
            requires
                g == 2,
        ;
    } else if g == 4 {
        assert(g * g == 16 && (g / 2) * (g / 2) == 4) by (nonlinear_arith)
            requires
                g == 4,
        ;
    } else if g == 8 {
        assert(g * g == 64 && (g / 2) * (g / 2) == 16) by (nonlinear_arith)
            requires
                g == 8,
        ;
    } else if g == 16 {
        assert(g * g == 256 && (g / 2) * (g / 2) == 64) by (nonlinear_arith)
            requires
                g == 16,
        ;
    } else if g == 32 {
        assert(g * g == 1024 && (g / 2) * (g / 2) == 256) by (nonlinear_arith)
            requires
                g == 32,
        ;
    } else if g == 64 {
        assert(g * g == 4096 && (g / 2) * (g / 2) == 1024) by (nonlinear_arith)
            requires
                g == 64,
        ;
    } else if g == 128 {
        assert(g * g == 16384 && (g / 2) * (g / 2) == 4096) by (nonlinear_arith)
            requires
                g == 128,
        ;
    } else if g == 256 {
        assert(g * g == 65536 && (g / 2) * (g / 2) == 16384) by (nonlinear_arith)
            requires
                g == 256,
        ;
    } else if g == 512 {
        assert(g * g == 262144 && (g / 2) * (g / 2) == 65536) by (nonlinear_arith)
            requires
                g == 512,
        ;
    } else if g == 1024 {
        assert(g * g == 1048576 && (g / 2) * (g / 2) == 262144) by (nonlinear_arith)
            requires
                g == 1024,
        ;
    } else if g == 2048 {
        assert(g * g == 4194304 && (g / 2) * (g / 2) == 1048576) by (nonlinear_arith)
            requires
                g == 2048,
        ;
    } else if g == 4096 {
        assert(g * g == 16777216 && (g / 2) * (g / 2) == 4194304) by (nonlinear_arith)
            requires
                g == 4096,
        ;
    } else if g == 8192 {
        assert(g * g == 67108864 && (g / 2) * (g / 2) == 16777216) by (nonlinear_arith)
            requires
                g == 8192,
        ;
    } else if g == 16384 {
        assert(g * g == 268435456 && (g / 2) * (g / 2) == 67108864) by (nonlinear_arith)
            requires
                g == 16384,
        ;
    } else if g == 32768 {
        assert(g * g == 1073741824 && (g / 2) * (g / 2) == 268435456) by (nonlinear_arith)
            requires
                g == 32768,
        ;
    } else if g == 65536 {
        assert(g * g == 4294967296 && (g / 2) * (g / 2) == 1073741824) by (nonlinear_arith)
            requires
                g == 65536,
        ;
    }
}

/// The integer square root of `value`, read as an unsigned number: for a
/// negative `value` that is the root of `value` plus 2^32.
#[allow(non_snake_case)]
pub fn RCL_sqrtInt(value: RCL_Unit) -> (result: u32)
    ensures
        value >= 0 ==> result == spec_isqrt(value as int),
        value < 0 ==> result == spec_isqrt(value + 0x1_0000_0000),
        result <= 65535,
{
    let n: u32 = if value >= 0 {
        value as u32
    } else {
        (value as i64 + 0x1_0000_0000) as u32
    };
    let mut result: u32 = 0;
    let mut a: u32 = n;
    let mut b: u32 = 1 << 30;
    let ghost mut g: int = 65536;
    let ghost mut p: int = 0;
    assert(1u32 << 30 == 0x4000_0000) by (bit_vector);

    while b > a
        invariant
            a == n,
            result == 0,
            p == 0,
            spec_root_weight(g),
            g >= 2 ==> 4 * b == g * g,
            g == 1 ==> b == 0,
            n < g * g,
        decreases b,
    {
        assert(b >> 2 == b / 4) by (bit_vector);
        proof {
            lemma_root_weight(g, b as int);
            g = g / 2;
        }
        b >>= 2;
    }
    while b != 0
        invariant
            spec_root_weight(g),
            g >= 2 ==> 4 * b == g * g,
            g == 1 ==> b == 0,
            0 <= p,
            p + g <= 65536,
            result == p * g,
            a == n - p * p,
            p * p <= n,
            n < (p + g) * (p + g),
        decreases b,
    {
        assert(b >> 2 == b / 4) by (bit_vector);
        proof {
            lemma_root_weight(g, b as int);
            assert((p + g / 2) * (p + g / 2) == p * p + p * g + b) by (nonlinear_arith)
                requires
                    g % 2 == 0,
                    4 * b == g * g,
            ;
            assert(p * g + 2 * b == (p + g / 2) * g) by (nonlinear_arith)
                requires
                    g % 2 == 0,
                    4 * b == g * g,
            ;
            assert((p + g / 2) * g <= 65536 * 65536 - 1 && p * g + b <= 65536 * 65536 - 1)
                by (nonlinear_arith)
                requires
                    g % 2 == 0,
                    g >= 2,
                    0 <= p,
                    p + g <= 65536,
                    4 * b == g * g,
            ;
        }
        if a >= result + b {
            a -= result + b;
            result = result + 2 * b;
            proof {
                p = p + g / 2;
            }
        } else {
            proof {
                assert(p * g + 0 == p * g);
            }
        }
        assert(result >> 1 == result / 2) by (bit_vector);
        proof {
            // result == p * g with g even: halving gives p * (g / 2)
            assert((p * g) / 2 == p * (g / 2)) by (nonlinear_arith)
                requires
                    g % 2 == 0,
            ;
            g = g / 2;
        }
        b >>= 2;
        result >>= 1;
    }
    proof {
        assert(g == 1);
        assert(p * 1 == p) by (nonlinear_arith);
        assert((p + 1) * (p + 1) == (p + g) * (p + g));
        lemma_isqrt_unique(n as int, p);
    }
    result
}

/// Converts an angle in whole degrees to an angle in units.
#[allow(non_snake_case)]
pub fn RCL_degreesToUnitsAngle(degrees: i16) -> (r: RCL_Unit)
    ensures
        r == spec_degrees_to_units_angle(degrees),
{
    proof {
        lemma_div_trunc_range(degrees * 32, 360);
    }
    (degrees as RCL_Unit * RCL_UNITS_PER_SQUARE) / 360
}

/// Computes the change in size of an object due to perspective.
#[allow(non_snake_case)]
pub fn RCL_perspectiveScale(originalSize: RCL_Unit, distance: RCL_Unit) -> (r: RCL_Unit)
    requires
        distance != 0 ==> spec_can_divide(
            originalSize.wrapping_mul(RCL_UNITS_PER_SQUARE),
            spec_perspective_divisor(distance),
        ),
    ensures
        r == spec_perspective_scale(originalSize, distance),
{
    if distance != 0 {
        let divisor: i32 = perspective_divisor(distance);
        div_trunc(originalSize.wrapping_mul(RCL_UNITS_PER_SQUARE), divisor)
    } else {
        0
    }
}

fn perspective_divisor(distance: RCL_Unit) -> (r: RCL_Unit)
    ensures
        r == spec_perspective_divisor(distance),
{
    let scaled: i32 = (RCL_VERTICAL_FOV * 2).wrapping_mul(distance);
    proof {
        lemma_div_trunc_range(scaled as int, 32);
    }
    scaled / RCL_UNITS_PER_SQUARE
}

/// The distance at which an object looks as large as given.
#[allow(non_snake_case)]
pub fn RCL_perspectiveScaleInverse(originalSize: RCL_Unit, scaledSize: RCL_Unit) -> (r: RCL_Unit)
    requires
        scaledSize != 0 ==> spec_can_divide(
            originalSize.wrapping_mul(RCL_UNITS_PER_SQUARE).wrapping_add(16i32),
            spec_perspective_divisor(scaledSize),
        ),
    ensures
        r == spec_perspective_scale_inverse(originalSize, scaledSize),
{
    if scaledSize != 0 {
        let divisor: i32 = perspective_divisor(scaledSize);
        div_trunc(
            originalSize.wrapping_mul(RCL_UNITS_PER_SQUARE).wrapping_add(RCL_UNITS_PER_SQUARE / 2),
            divisor,
        )
    } else {
        RCL_INFINITY
    }
}

/// Takes a value and does nothing with it.
#[allow(non_snake_case)]
pub fn _RCL_UNUSED<T>(what: T) {
}

/// At a distance that is not zero and smaller than 2^26 in magnitude, the
/// perspective divisor is the distance itself.
pub proof fn lemma_perspective_divisor(distance: i32)
    requires
        -0x400_0000 < distance < 0x400_0000,
    ensures
        spec_perspective_divisor(distance) == distance,
{
    let scaled = 32 * distance;
    assert(32i32.wrapping_mul(distance) == scaled);
    if distance >= 0 {
        assert((32 * distance) / 32 == distance) by (nonlinear_arith);
    } else {
        assert((-(32 * distance)) / 32 == -distance) by (nonlinear_arith);
    }
}

} // verus!
