//! Homogeneous points, texture coordinates and triangles.

use crate::scalar::Scalar;
use vstd::prelude::*;

verus! {

/// A texture coordinate `(u, v)` with its depth weight `w`.
///
/// Before projection `w` is 1. After projection `w` is the reciprocal of the
/// depth and `u`, `v` are premultiplied by it.
#[derive(Copy, Clone, Debug)]
pub struct VecUVW<R: Scalar> {
    pub u: R,
    pub v: R,
    pub w: R,
}

/// A point or direction in homogeneous coordinates.
#[derive(Copy, Clone, Debug)]
pub struct Vec3d<R: Scalar> {
    pub x: R,
    pub y: R,
    pub z: R,
    pub w: R,
}

/// Three vertices and, index by index, their texture coordinates.
#[derive(Copy, Clone, Debug)]
pub struct Triangle<R: Scalar> {
    pub vertices: [Vec3d<R>; 3],
    pub uvs: [VecUVW<R>; 3],
}

impl<R: Scalar> VecUVW<R> {
    /// The coordinate with every component zero, as a model value.
    pub open spec fn spec_zero_vec() -> VecUVW<R> {
        VecUVW { u: R::spec_zero(), v: R::spec_zero(), w: R::spec_zero() }
    }

    pub fn zero_vec() -> (r: VecUVW<R>)
        ensures
            r == Self::spec_zero_vec(),
    {
        VecUVW { u: R::zero(), v: R::zero(), w: R::zero() }
    }

    pub fn uvw(u: R, v: R, w: R) -> (r: VecUVW<R>)
        ensures
            r == (VecUVW { u, v, w }),
    {
        VecUVW { u, v, w }
    }
}

impl<R: Scalar> Vec3d<R> {
    /// The vector with every component zero, as a model value.
    pub open spec fn spec_zero_vec() -> Vec3d<R> {
        Vec3d { x: R::spec_zero(), y: R::spec_zero(), z: R::spec_zero(), w: R::spec_zero() }
    }

    /// The point `(x, y, z)`, as a model value.
    pub open spec fn spec_xyz1(x: R, y: R, z: R) -> Vec3d<R> {
        Vec3d { x, y, z, w: R::spec_one() }
    }

    pub fn zero_vec() -> (r: Vec3d<R>)
        ensures
            r == Self::spec_zero_vec(),
    {
        Vec3d { x: R::zero(), y: R::zero(), z: R::zero(), w: R::zero() }
    }

    /// The point `(x, y, z)`: its `w` is 1.
    pub fn xyz1(x: R, y: R, z: R) -> (r: Vec3d<R>)
        ensures
            r == Self::spec_xyz1(x, y, z),
    {
        Vec3d { x, y, z, w: R::one() }
    }

    pub fn xyzw(x: R, y: R, z: R, w: R) -> (r: Vec3d<R>)
        ensures
            r == (Vec3d { x, y, z, w }),
    {
        Vec3d { x, y, z, w }
    }
}

impl<R: Scalar> Triangle<R> {
    /// The triangle with every component zero, as a model value.
    pub open spec fn spec_zero_spaced_verticies() -> Triangle<R> {
        Triangle {
            vertices: [Vec3d::spec_zero_vec(), Vec3d::spec_zero_vec(), Vec3d::spec_zero_vec()],
            uvs: [VecUVW::spec_zero_vec(), VecUVW::spec_zero_vec(), VecUVW::spec_zero_vec()],
        }
    }

    pub fn zero_spaced_verticies() -> (r: Triangle<R>)
        ensures
            r == Self::spec_zero_spaced_verticies(),
    {
        Triangle {
            vertices: [Vec3d::zero_vec(), Vec3d::zero_vec(), Vec3d::zero_vec()],
            uvs: [VecUVW::zero_vec(), VecUVW::zero_vec(), VecUVW::zero_vec()],
        }
    }
}

/// Componentwise sum, `w` included.
pub open spec fn spec_add_vec3d<R: Scalar>(a: Vec3d<R>, b: Vec3d<R>) -> Vec3d<R> {
    Vec3d {
        x: a.x.spec_plus(b.x),
        y: a.y.spec_plus(b.y),
        z: a.z.spec_plus(b.z),
        w: a.w.spec_plus(b.w),
    }
}

/// Componentwise difference, `w` included.
pub open spec fn spec_sub_vec3d<R: Scalar>(a: Vec3d<R>, b: Vec3d<R>) -> Vec3d<R> {
    Vec3d {
        x: a.x.spec_minus(b.x),
        y: a.y.spec_minus(b.y),
        z: a.z.spec_minus(b.z),
        w: a.w.spec_minus(b.w),
    }
}

/// `x`, `y`, `z` scaled by `m`; the result is a point, so its `w` is 1.
pub open spec fn spec_mul_vec3d<R: Scalar>(a: Vec3d<R>, m: R) -> Vec3d<R> {
    Vec3d::spec_xyz1(a.x.spec_times(m), a.y.spec_times(m), a.z.spec_times(m))
}

/// `x`, `y`, `z` divided by `d`; the result is a point, so its `w` is 1.
pub open spec fn spec_div_vec3d<R: Scalar>(a: Vec3d<R>, d: R) -> Vec3d<R> {
    Vec3d::spec_xyz1(a.x.spec_over(d), a.y.spec_over(d), a.z.spec_over(d))
}

/// Componentwise sum.
pub open spec fn spec_add_vec_uvw<R: Scalar>(a: VecUVW<R>, b: VecUVW<R>) -> VecUVW<R> {
    VecUVW { u: a.u.spec_plus(b.u), v: a.v.spec_plus(b.v), w: a.w.spec_plus(b.w) }
}

/// Componentwise difference.
pub open spec fn spec_sub_vec2_uvw<R: Scalar>(a: VecUVW<R>, b: VecUVW<R>) -> VecUVW<R> {
    VecUVW { u: a.u.spec_minus(b.u), v: a.v.spec_minus(b.v), w: a.w.spec_minus(b.w) }
}

/// Every component scaled by `m`.
pub open spec fn spec_mul_vec_uvw<R: Scalar>(a: VecUVW<R>, m: R) -> VecUVW<R> {
    VecUVW { u: a.u.spec_times(m), v: a.v.spec_times(m), w: a.w.spec_times(m) }
}

/// The point at parameter `t` on the way from `from` to `to`:
/// `from + (to - from) * t`, component by component.
pub open spec fn spec_lerp_uvw<R: Scalar>(from: VecUVW<R>, to: VecUVW<R>, t: R) -> VecUVW<R> {
    spec_add_vec_uvw(from, spec_mul_vec_uvw(spec_sub_vec2_uvw(to, from), t))
}

/// Dot product of the `x`, `y`, `z` parts, summed from left to right.
pub open spec fn spec_dot_product<R: Scalar>(a: Vec3d<R>, b: Vec3d<R>) -> R {
    a.x.spec_times(b.x).spec_plus(a.y.spec_times(b.y)).spec_plus(a.z.spec_times(b.z))
}

/// Cross product of the `x`, `y`, `z` parts. The `w` of the result is
/// `a.w * b.w - a.w * b.w`.
pub open spec fn spec_cross_product<R: Scalar>(a: Vec3d<R>, b: Vec3d<R>) -> Vec3d<R> {
    Vec3d {
        x: a.y.spec_times(b.z).spec_minus(a.z.spec_times(b.y)),
        y: a.z.spec_times(b.x).spec_minus(a.x.spec_times(b.z)),
        z: a.x.spec_times(b.y).spec_minus(a.y.spec_times(b.x)),
        w: a.w.spec_times(b.w).spec_minus(a.w.spec_times(b.w)),
    }
}

/// The sum of the squares of `x`, `y`, `z`, from left to right.
pub open spec fn spec_len_squared<R: Scalar>(a: Vec3d<R>) -> R {
    a.x.spec_times(a.x).spec_plus(a.y.spec_times(a.y)).spec_plus(a.z.spec_times(a.z))
}

/// The length of the `x`, `y`, `z` part.
pub open spec fn spec_vec_len<R: Scalar>(a: Vec3d<R>) -> R {
    spec_len_squared(a).spec_sqrt()
}

/// The first guess at one over the square root of the number with the
/// single-precision pattern `bits`: a constant less half of the pattern,
/// modulo 2^32.
pub open spec fn spec_rsqrt_seed(bits: u32) -> u32 {
    0x5f37_59dfu32.wrapping_sub(bits >> 1)
}

/// One over the square root of `number`, approximately: the first guess
/// `y = spec_rsqrt_seed`, read as a number, improved by one step of
/// Newton's method, `y * (3/2 - (number / 2 * y) * y)`.
#[allow(non_snake_case)]
pub open spec fn spec_Q_rsqrt<R: Scalar>(number: R) -> R {
    let x2 = number.spec_times(R::spec_one().spec_over(R::spec_from_i32(2)));
    let y = R::spec_from_bits(spec_rsqrt_seed(number.spec_to_bits()));
    y.spec_times(
        R::spec_from_i32(3).spec_over(R::spec_from_i32(2)).spec_minus(
            x2.spec_times(y).spec_times(y),
        ),
    )
}

/// One over the length of the `x`, `y`, `z` part, approximately.
pub open spec fn spec_rev_vec_len<R: Scalar>(a: Vec3d<R>) -> R {
    spec_Q_rsqrt(spec_len_squared(a))
}

/// `x`, `y`, `z` divided by the length; `w` is kept.
pub open spec fn spec_normalize2<R: Scalar>(a: Vec3d<R>) -> Vec3d<R> {
    Vec3d {
        x: a.x.spec_over(spec_vec_len(a)),
        y: a.y.spec_over(spec_vec_len(a)),
        z: a.z.spec_over(spec_vec_len(a)),
        w: a.w,
    }
}

/// `x`, `y`, `z` times the reciprocal length; `w` is kept.
pub open spec fn spec_normalize<R: Scalar>(a: Vec3d<R>) -> Vec3d<R> {
    Vec3d {
        x: a.x.spec_times(spec_rev_vec_len(a)),
        y: a.y.spec_times(spec_rev_vec_len(a)),
        z: a.z.spec_times(spec_rev_vec_len(a)),
        w: a.w,
    }
}

pub fn add_vec3d<R: Scalar>(vec1: &Vec3d<R>, vec2: &Vec3d<R>) -> (r: Vec3d<R>)
    ensures
        r == spec_add_vec3d(*vec1, *vec2),
{
    Vec3d {
        x: vec1.x.plus(vec2.x),
        y: vec1.y.plus(vec2.y),
        z: vec1.z.plus(vec2.z),
        w: vec1.w.plus(vec2.w),
    }
}

pub fn add_vec_uvw<R: Scalar>(vec1: &VecUVW<R>, vec2: &VecUVW<R>) -> (r: VecUVW<R>)
    ensures
        r == spec_add_vec_uvw(*vec1, *vec2),
{
    VecUVW { u: vec1.u.plus(vec2.u), v: vec1.v.plus(vec2.v), w: vec1.w.plus(vec2.w) }
}

pub fn sub_vec3d<R: Scalar>(vec1: &Vec3d<R>, vec2: &Vec3d<R>) -> (r: Vec3d<R>)
    ensures
        r == spec_sub_vec3d(*vec1, *vec2),
{
    Vec3d {
        x: vec1.x.minus(vec2.x),
        y: vec1.y.minus(vec2.y),
        z: vec1.z.minus(vec2.z),
        w: vec1.w.minus(vec2.w),
    }
}

pub fn sub_vec2_uvw<R: Scalar>(vec1: &VecUVW<R>, vec2: &VecUVW<R>) -> (r: VecUVW<R>)
    ensures
        r == spec_sub_vec2_uvw(*vec1, *vec2),
{
    VecUVW { u: vec1.u.minus(vec2.u), v: vec1.v.minus(vec2.v), w: vec1.w.minus(vec2.w) }
}

pub fn mul_vec3d<R: Scalar>(vec: &Vec3d<R>, multiplier: R) -> (r: Vec3d<R>)
    ensures
        r == spec_mul_vec3d(*vec, multiplier),
{
    Vec3d::xyz1(vec.x.times(multiplier), vec.y.times(multiplier), vec.z.times(multiplier))
}

pub fn div_vec3d<R: Scalar>(vec: &Vec3d<R>, divider: R) -> (r: Vec3d<R>)
    ensures
        r == spec_div_vec3d(*vec, divider),
{
    Vec3d::xyz1(vec.x.over(divider), vec.y.over(divider), vec.z.over(divider))
}

pub fn mul_vec_uvw<R: Scalar>(vec: &VecUVW<R>, multiplier: R) -> (r: VecUVW<R>)
    ensures
        r == spec_mul_vec_uvw(*vec, multiplier),
{
    VecUVW {
        u: vec.u.times(multiplier),
        v: vec.v.times(multiplier),
        w: vec.w.times(multiplier),
    }
}

pub fn cross_product<R: Scalar>(vec1: &Vec3d<R>, vec2: &Vec3d<R>) -> (r: Vec3d<R>)
    ensures
        r == spec_cross_product(*vec1, *vec2),
{
    Vec3d {
        x: vec1.y.times(vec2.z).minus(vec1.z.times(vec2.y)),
        y: vec1.z.times(vec2.x).minus(vec1.x.times(vec2.z)),
        z: vec1.x.times(vec2.y).minus(vec1.y.times(vec2.x)),
        w: vec1.w.times(vec2.w).minus(vec1.w.times(vec2.w)),
    }
}

pub fn dot_product<R: Scalar>(vec1: &Vec3d<R>, vec2: &Vec3d<R>) -> (r: R)
    ensures
        r == spec_dot_product(*vec1, *vec2),
{
    vec1.x.times(vec2.x).plus(vec1.y.times(vec2.y)).plus(vec1.z.times(vec2.z))
}

pub fn vec_len<R: Scalar>(vec: &Vec3d<R>) -> (r: R)
    ensures
        r == spec_vec_len(*vec),
{
    vec.x.times(vec.x).plus(vec.y.times(vec.y)).plus(vec.z.times(vec.z)).sqrt()
}

/// The fast reciprocal square root: a guess taken from the bits of the
/// number, then one step of Newton's method.
#[allow(non_snake_case)]
pub fn Q_rsqrt<R: Scalar>(number: R) -> (r: R)
    ensures
        r == spec_Q_rsqrt(number),
{
    let threehalfs = R::from_i32(3).over(R::from_i32(2));

    let x2 = number.times(R::one().over(R::from_i32(2)));
    let mut y = number;
    let mut i: u32 = y.to_bits();
    i = 0x5f37_59dfu32.wrapping_sub(i >> 1);
    y = R::from_bits(i);
    y = y.times(threehalfs.minus(x2.times(y).times(y)));
    y
}

pub fn rev_vec_len<R: Scalar>(vec: &Vec3d<R>) -> (r: R)
    ensures
        r == spec_rev_vec_len(*vec),
{
    Q_rsqrt(vec.x.times(vec.x).plus(vec.y.times(vec.y)).plus(vec.z.times(vec.z)))
}

/// Scales the vector to unit length by dividing by its length.
pub fn normalize2<R: Scalar>(vec: &Vec3d<R>) -> (r: Vec3d<R>)
    ensures
        r == spec_normalize2(*vec),
{
    let len = vec_len(vec);
    Vec3d { x: vec.x.over(len), y: vec.y.over(len), z: vec.z.over(len), w: vec.w }
}

/// Scales the vector to unit length by the reciprocal square root.
pub fn normalize<R: Scalar>(vec: &Vec3d<R>) -> (r: Vec3d<R>)
    ensures
        r == spec_normalize(*vec),
{
    let rlen = rev_vec_len(vec);
    Vec3d { x: vec.x.times(rlen), y: vec.y.times(rlen), z: vec.z.times(rlen), w: vec.w }
}

/// What vectors of any number of components offer: a dot product over all
/// components and, from it, a length and a fast reciprocal length.
pub trait Vector<R: Scalar>: Copy + Sized {
    /// The vector with every component zero.
    spec fn spec_zero() -> Self;

    /// The sum of the products of the components, taken from zero on in the
    /// order of the components.
    spec fn spec_dot(v1: Self, v2: Self) -> R;

    fn zero() -> (r: Self)
        ensures
            r == Self::spec_zero(),
    ;

    fn dot_product(v1: &Self, v2: &Self) -> (r: R)
        ensures
            r == Self::spec_dot(*v1, *v2),
    ;

    /// The length: the square root of the dot product of the vector with
    /// itself.
    fn len(&self) -> (r: R)
        ensures
            r == Self::spec_dot(*self, *self).spec_sqrt(),
    ;

    /// One over the length, approximately.
    fn rev_len(&self) -> (r: R)
        ensures
            r == spec_Q_rsqrt(Self::spec_dot(*self, *self)),
    ;
}

impl<R: Scalar> Vector<R> for VecUVW<R> {
    open spec fn spec_zero() -> Self {
        VecUVW::spec_zero_vec()
    }

    open spec fn spec_dot(v1: Self, v2: Self) -> R {
        R::spec_zero().spec_plus(v1.u.spec_times(v2.u)).spec_plus(v1.v.spec_times(v2.v)).spec_plus(
            v1.w.spec_times(v2.w),
        )
    }

    fn zero() -> (r: Self) {
        VecUVW::zero_vec()
    }

    fn dot_product(v1: &Self, v2: &Self) -> (r: R) {
        R::zero().plus(v1.u.times(v2.u)).plus(v1.v.times(v2.v)).plus(v1.w.times(v2.w))
    }

    fn len(&self) -> (r: R) {
        Self::dot_product(self, self).sqrt()
    }

    fn rev_len(&self) -> (r: R) {
        Q_rsqrt(Self::dot_product(self, self))
    }
}

impl<R: Scalar> Vector<R> for Vec3d<R> {
    open spec fn spec_zero() -> Self {
        Vec3d::spec_zero_vec()
    }

    open spec fn spec_dot(v1: Self, v2: Self) -> R {
        R::spec_zero().spec_plus(v1.x.spec_times(v2.x)).spec_plus(v1.y.spec_times(v2.y)).spec_plus(
            v1.z.spec_times(v2.z),
        ).spec_plus(v1.w.spec_times(v2.w))
    }

    fn zero() -> (r: Self) {
        Vec3d::zero_vec()
    }

    fn dot_product(v1: &Self, v2: &Self) -> (r: R) {
        R::zero().plus(v1.x.times(v2.x)).plus(v1.y.times(v2.y)).plus(v1.z.times(v2.z)).plus(
            v1.w.times(v2.w),
        )
    }

    fn len(&self) -> (r: R) {
        Self::dot_product(self, self).sqrt()
    }

    fn rev_len(&self) -> (r: R) {
        Q_rsqrt(Self::dot_product(self, self))
    }
}

} // verus!
