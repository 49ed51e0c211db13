//! 4x4 matrices in row-major order, applied to row vectors: `out = in * M`.

use crate::scalar::Scalar;
use crate::vector::{
    cross_product, dot_product, mul_vec3d, normalize, spec_cross_product, spec_dot_product,
    spec_mul_vec3d, spec_normalize, spec_sub_vec3d, sub_vec3d, Vec3d,
};
use vstd::prelude::*;

verus! {

#[derive(Copy, Clone, Debug)]
pub struct Matrix4x4<R: Scalar> {
    pub matrix: [[R; 4]; 4],
}

/// The matrix with the given rows, as a model value.
pub open spec fn spec_rows<R: Scalar>(r0: [R; 4], r1: [R; 4], r2: [R; 4], r3: [R; 4]) -> Matrix4x4<
    R,
> {
    Matrix4x4 { matrix: [r0, r1, r2, r3] }
}

impl<R: Scalar> Matrix4x4<R> {
    /// The entry in row `r` and column `c`.
    pub open spec fn at(self, r: int, c: int) -> R {
        self.matrix[r][c]
    }

    /// The matrix of zeros, as a model value.
    pub open spec fn spec_zeros() -> Matrix4x4<R> {
        let o = R::spec_zero();
        spec_rows([o, o, o, o], [o, o, o, o], [o, o, o, o], [o, o, o, o])
    }

    /// The identity matrix, as a model value.
    pub open spec fn spec_ones_cascade() -> Matrix4x4<R> {
        let o = R::spec_zero();
        let i = R::spec_one();
        spec_rows([i, o, o, o], [o, i, o, o], [o, o, i, o], [o, o, o, i])
    }

    pub fn zeros() -> (m: Matrix4x4<R>)
        ensures
            m == Self::spec_zeros(),
    {
        let o = R::zero();
        Matrix4x4 { matrix: [[o, o, o, o], [o, o, o, o], [o, o, o, o], [o, o, o, o]] }
    }

    /// The identity matrix: ones down the diagonal.
    pub fn ones_cascade() -> (m: Matrix4x4<R>)
        ensures
            m == Self::spec_ones_cascade(),
    {
        let o = R::zero();
        let i = R::one();
        Matrix4x4 { matrix: [[i, o, o, o], [o, i, o, o], [o, o, i, o], [o, o, o, i]] }
    }
}

/// The camera basis of `spec_point_at_matrix`: forward, up and right.
pub open spec fn spec_camera_forward<R: Scalar>(pos: Vec3d<R>, target: Vec3d<R>) -> Vec3d<R> {
    spec_normalize(spec_sub_vec3d(target, pos))
}

pub open spec fn spec_camera_up<R: Scalar>(pos: Vec3d<R>, target: Vec3d<R>, up: Vec3d<R>) -> Vec3d<
    R,
> {
    let forward = spec_camera_forward(pos, target);
    spec_normalize(spec_sub_vec3d(up, spec_mul_vec3d(forward, spec_dot_product(up, forward))))
}

pub open spec fn spec_camera_right<R: Scalar>(
    pos: Vec3d<R>,
    target: Vec3d<R>,
    up: Vec3d<R>,
) -> Vec3d<R> {
    spec_cross_product(spec_camera_up(pos, target, up), spec_camera_forward(pos, target))
}

/// The matrix that places a camera at `pos`, looking at `target`: its rows
/// are the camera's right, up and forward directions and its position.
pub open spec fn spec_point_at_matrix<R: Scalar>(
    pos: Vec3d<R>,
    target: Vec3d<R>,
    up: Vec3d<R>,
) -> Matrix4x4<R> {
    let f = spec_camera_forward(pos, target);
    let u = spec_camera_up(pos, target, up);
    let r = spec_camera_right(pos, target, up);
    let o = R::spec_zero();
    spec_rows([r.x, r.y, r.z, o], [u.x, u.y, u.z, o], [f.x, f.y, f.z, o], [
        pos.x,
        pos.y,
        pos.z,
        R::spec_one(),
    ])
}

pub fn point_at_matrix<R: Scalar>(pos: &Vec3d<R>, target: &Vec3d<R>, up: &Vec3d<R>) -> (m:
    Matrix4x4<R>)
    ensures
        m == spec_point_at_matrix(*pos, *target, *up),
{
    let new_forward = normalize(&sub_vec3d(target, pos));

    let a = mul_vec3d(&new_forward, dot_product(up, &new_forward));
    let new_up = normalize(&sub_vec3d(up, &a));

    let new_right = cross_product(&new_up, &new_forward);
    let o = R::zero();

    Matrix4x4 {
        matrix: [
            [new_right.x, new_right.y, new_right.z, o],
            [new_up.x, new_up.y, new_up.z, o],
            [new_forward.x, new_forward.y, new_forward.z, o],
            [pos.x, pos.y, pos.z, R::one()],
        ],
    }
}

/// The translation part of the inverse: minus the dot product of the
/// translation row with row `r` of the rotation block.
pub open spec fn spec_inverse_offset<R: Scalar>(m: Matrix4x4<R>, r: int) -> R {
    m.at(3, 0).spec_times(m.at(r, 0)).spec_plus(m.at(3, 1).spec_times(m.at(r, 1))).spec_plus(
        m.at(3, 2).spec_times(m.at(r, 2)),
    ).spec_negated()
}

/// The inverse of a matrix made of a rotation and a translation: the
/// rotation block transposed, and the translation projected and negated.
pub open spec fn spec_inverse_transformation_matrix<R: Scalar>(m: Matrix4x4<R>) -> Matrix4x4<R> {
    let o = R::spec_zero();
    spec_rows(
        [m.at(0, 0), m.at(1, 0), m.at(2, 0), o],
        [m.at(0, 1), m.at(1, 1), m.at(2, 1), o],
        [m.at(0, 2), m.at(1, 2), m.at(2, 2), o],
        [
            spec_inverse_offset(m, 0),
            spec_inverse_offset(m, 1),
            spec_inverse_offset(m, 2),
            R::spec_one(),
        ],
    )
}

fn inverse_offset<R: Scalar>(m: &Matrix4x4<R>, r: usize) -> (e: R)
    requires
        r < 3,
    ensures
        e == spec_inverse_offset(*m, r as int),
{
    m.matrix[3][0].times(m.matrix[r][0]).plus(m.matrix[3][1].times(m.matrix[r][1])).plus(
        m.matrix[3][2].times(m.matrix[r][2]),
    ).negated()
}

pub fn inverse_transformation_matrix<R: Scalar>(matrix: &Matrix4x4<R>) -> (m: Matrix4x4<R>)
    ensures
        m == spec_inverse_transformation_matrix(*matrix),
{
    let o = R::zero();
    Matrix4x4 {
        matrix: [
            [matrix.matrix[0][0], matrix.matrix[1][0], matrix.matrix[2][0], o],
            [matrix.matrix[0][1], matrix.matrix[1][1], matrix.matrix[2][1], o],
            [matrix.matrix[0][2], matrix.matrix[1][2], matrix.matrix[2][2], o],
            [
                inverse_offset(matrix, 0),
                inverse_offset(matrix, 1),
                inverse_offset(matrix, 2),
                R::one(),
            ],
        ],
    }
}

/// Column `c` of `inp * m`, where `inp` counts as a point: its `w` is taken
/// to be 1 whatever it holds.
pub open spec fn spec_transformed<R: Scalar>(inp: Vec3d<R>, m: Matrix4x4<R>, c: int) -> R {
    inp.x.spec_times(m.at(0, c)).spec_plus(inp.y.spec_times(m.at(1, c))).spec_plus(
        inp.z.spec_times(m.at(2, c)),
    ).spec_plus(m.at(3, c))
}

/// `inp * m` followed by the perspective divide: where the resulting `w`
/// does not compare equal to zero, `x`, `y`, `z` are divided by it. The `w`
/// is handed out undivided.
pub open spec fn spec_multiply_vector_matrix<R: Scalar>(inp: Vec3d<R>, m: Matrix4x4<R>) -> Vec3d<
    R,
> {
    let w = spec_transformed(inp, m, 3);
    if w.spec_same(R::spec_zero()) {
        Vec3d {
            x: spec_transformed(inp, m, 0),
            y: spec_transformed(inp, m, 1),
            z: spec_transformed(inp, m, 2),
            w,
        }
    } else {
        Vec3d {
            x: spec_transformed(inp, m, 0).spec_over(w),
            y: spec_transformed(inp, m, 1).spec_over(w),
            z: spec_transformed(inp, m, 2).spec_over(w),
            w,
        }
    }
}

fn transformed<R: Scalar>(inp: &Vec3d<R>, m: &Matrix4x4<R>, c: usize) -> (e: R)
    requires
        c < 4,
    ensures
        e == spec_transformed(*inp, *m, c as int),
{
    inp.x.times(m.matrix[0][c]).plus(inp.y.times(m.matrix[1][c])).plus(
        inp.z.times(m.matrix[2][c]),
    ).plus(m.matrix[3][c])
}

pub fn multiply_vector_matrix<R: Scalar>(inp: &Vec3d<R>, matrix: &Matrix4x4<R>) -> (out: Vec3d<R>)
    ensures
        out == spec_multiply_vector_matrix(*inp, *matrix),
{
    let mut out = Vec3d {
        x: transformed(inp, matrix, 0),
        y: transformed(inp, matrix, 1),
        z: transformed(inp, matrix, 2),
        w: transformed(inp, matrix, 3),
    };

    let w = transformed(inp, matrix, 3);

    if !w.same(R::zero()) {
        out.x = out.x.over(w);
        out.y = out.y.over(w);
        out.z = out.z.over(w);
    }
    out
}

/// The perspective projection with focal factor `fov_rad` (one over the
/// tangent of half the field of view), onto depths between the planes
/// `plane_near` and `plane_far`.
pub open spec fn spec_projection_matrix<R: Scalar>(
    fov_rad: R,
    aspect_ratio: R,
    plane_near: R,
    plane_far: R,
) -> Matrix4x4<R> {
    let o = R::spec_zero();
    let depth = plane_far.spec_minus(plane_near);
    spec_rows(
        [aspect_ratio.spec_times(fov_rad), o, o, o],
        [o, fov_rad, o, o],
        [o, o, plane_far.spec_over(depth), R::spec_one()],
        [o, o, plane_far.spec_negated().spec_times(plane_near).spec_over(depth), o],
    )
}

pub fn projection_matrix<R: Scalar>(
    fov_rad: R,
    aspect_ratio: R,
    plane_near: R,
    plane_far: R,
) -> (m: Matrix4x4<R>)
    ensures
        m == spec_projection_matrix(fov_rad, aspect_ratio, plane_near, plane_far),
{
    let o = R::zero();
    let depth = plane_far.minus(plane_near);
    Matrix4x4 {
        matrix: [
            [aspect_ratio.times(fov_rad), o, o, o],
            [o, fov_rad, o, o],
            [o, o, plane_far.over(depth), R::one()],
            [o, o, plane_far.negated().times(plane_near).over(depth), o],
        ],
    }
}

/// The translation by `(x, y, z)`.
pub open spec fn spec_transition_matrix<R: Scalar>(x: R, y: R, z: R) -> Matrix4x4<R> {
    let o = R::spec_zero();
    let i = R::spec_one();
    spec_rows([i, o, o, o], [o, i, o, o], [o, o, i, o], [x, y, z, i])
}

pub fn transition_matrix<R: Scalar>(x: R, y: R, z: R) -> (m: Matrix4x4<R>)
    ensures
        m == spec_transition_matrix(x, y, z),
{
    let o = R::zero();
    let i = R::one();
    Matrix4x4 { matrix: [[i, o, o, o], [o, i, o, o], [o, o, i, o], [x, y, z, i]] }
}

/// The rotation about the z axis by the angle with cosine `a_cos` and sine
/// `a_sin`.
pub open spec fn spec_rotation_matrix_z<R: Scalar>(a_cos: R, a_sin: R) -> Matrix4x4<R> {
    let o = R::spec_zero();
    let i = R::spec_one();
    spec_rows([a_cos, a_sin, o, o], [a_sin.spec_negated(), a_cos, o, o], [o, o, i, o], [o, o, o, i])
}

/// The rotation about the x axis.
pub open spec fn spec_rotation_matrix_x<R: Scalar>(a_cos: R, a_sin: R) -> Matrix4x4<R> {
    let o = R::spec_zero();
    let i = R::spec_one();
    spec_rows([i, o, o, o], [o, a_cos, a_sin, o], [o, a_sin.spec_negated(), a_cos, o], [o, o, o, i])
}

/// The rotation about the y axis.
pub open spec fn spec_rotation_matrix_y<R: Scalar>(a_cos: R, a_sin: R) -> Matrix4x4<R> {
    let o = R::spec_zero();
    let i = R::spec_one();
    spec_rows([a_cos, o, a_sin.spec_negated(), o], [o, i, o, o], [a_sin, o, a_cos, o], [o, o, o, i])
}

pub fn rotation_matrix_z<R: Scalar>(a_cos: R, a_sin: R) -> (m: Matrix4x4<R>)
    ensures
        m == spec_rotation_matrix_z(a_cos, a_sin),
{
    let o = R::zero();
    let i = R::one();
    Matrix4x4 {
        matrix: [[a_cos, a_sin, o, o], [a_sin.negated(), a_cos, o, o], [o, o, i, o], [o, o, o, i]],
    }
}

pub fn rotation_matrix_x<R: Scalar>(a_cos: R, a_sin: R) -> (m: Matrix4x4<R>)
    ensures
        m == spec_rotation_matrix_x(a_cos, a_sin),
{
    let o = R::zero();
    let i = R::one();
    Matrix4x4 {
        matrix: [[i, o, o, o], [o, a_cos, a_sin, o], [o, a_sin.negated(), a_cos, o], [o, o, o, i]],
    }
}

pub fn rotation_matrix_y<R: Scalar>(a_cos: R, a_sin: R) -> (m: Matrix4x4<R>)
    ensures
        m == spec_rotation_matrix_y(a_cos, a_sin),
{
    let o = R::zero();
    let i = R::one();
    Matrix4x4 {
        matrix: [[a_cos, o, a_sin.negated(), o], [o, i, o, o], [a_sin, o, a_cos, o], [o, o, o, i]],
    }
}

/// Entry `(r, c)` of the product `m1 * m2`, summed from left to right.
pub open spec fn spec_mul_entry<R: Scalar>(m1: Matrix4x4<R>, m2: Matrix4x4<R>, r: int, c: int) -> R {
    m1.at(r, 0).spec_times(m2.at(0, c)).spec_plus(m1.at(r, 1).spec_times(m2.at(1, c))).spec_plus(
        m1.at(r, 2).spec_times(m2.at(2, c)),
    ).spec_plus(m1.at(r, 3).spec_times(m2.at(3, c)))
}

/// Row `r` of the product `m1 * m2`.
pub open spec fn spec_mul_row<R: Scalar>(m1: Matrix4x4<R>, m2: Matrix4x4<R>, r: int) -> [R; 4] {
    [
        spec_mul_entry(m1, m2, r, 0),
        spec_mul_entry(m1, m2, r, 1),
        spec_mul_entry(m1, m2, r, 2),
        spec_mul_entry(m1, m2, r, 3),
    ]
}

/// The matrix product `m1 * m2`.
pub open spec fn spec_mul_matrix<R: Scalar>(m1: Matrix4x4<R>, m2: Matrix4x4<R>) -> Matrix4x4<R> {
    spec_rows(
        spec_mul_row(m1, m2, 0),
        spec_mul_row(m1, m2, 1),
        spec_mul_row(m1, m2, 2),
        spec_mul_row(m1, m2, 3),
    )
}

fn mul_entry<R: Scalar>(m1: &Matrix4x4<R>, m2: &Matrix4x4<R>, r: usize, c: usize) -> (e: R)
    requires
        r < 4,
        c < 4,
    ensures
        e == spec_mul_entry(*m1, *m2, r as int, c as int),
{
    m1.matrix[r][0].times(m2.matrix[0][c]).plus(m1.matrix[r][1].times(m2.matrix[1][c])).plus(
        m1.matrix[r][2].times(m2.matrix[2][c]),
    ).plus(m1.matrix[r][3].times(m2.matrix[3][c]))
}

fn mul_row<R: Scalar>(m1: &Matrix4x4<R>, m2: &Matrix4x4<R>, r: usize) -> (row: [R; 4])
    requires
        r < 4,
    ensures
        row == spec_mul_row(*m1, *m2, r as int),
{
    [mul_entry(m1, m2, r, 0), mul_entry(m1, m2, r, 1), mul_entry(m1, m2, r, 2), mul_entry(
        m1,
        m2,
        r,
        3,
    )]
}

pub fn mul_matrix<R: Scalar>(matrix1: &Matrix4x4<R>, matrix2: &Matrix4x4<R>) -> (m: Matrix4x4<R>)
    ensures
        m == spec_mul_matrix(*matrix1, *matrix2),
{
    Matrix4x4 {
        matrix: [
            mul_row(matrix1, matrix2, 0),
            mul_row(matrix1, matrix2, 1),
            mul_row(matrix1, matrix2, 2),
            mul_row(matrix1, matrix2, 3),
        ],
    }
}

} // verus!
