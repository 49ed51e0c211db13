//! Clipping a triangle against a plane.
//!
//! A plane is given by a point on it and its normal; the side that the
//! normal points to is the inside. A vertex is inside when its signed
//! distance from the plane is greater than or equal to zero.

use crate::scalar::Scalar;
use crate::vector::{
    add_vec3d, add_vec_uvw, dot_product, mul_vec3d, mul_vec_uvw, spec_add_vec3d,
    spec_dot_product, spec_lerp_uvw, spec_mul_vec3d, spec_sub_vec3d, sub_vec2_uvw, sub_vec3d,
    Triangle, Vec3d, VecUVW,
};
use vstd::prelude::*;

verus! {

/// The parameter at which the segment from `line_start` to `line_end` meets
/// the plane: 0 at the start, 1 at the end. A segment parallel to the plane
/// gives whatever the backend's division gives.
pub open spec fn spec_intersect_t<R: Scalar>(
    plane_p: Vec3d<R>,
    plane_n: Vec3d<R>,
    line_start: Vec3d<R>,
    line_end: Vec3d<R>,
) -> R {
    let plane_d = spec_dot_product(plane_n, plane_p).spec_negated();
    let ad = spec_dot_product(line_start, plane_n);
    let bd = spec_dot_product(line_end, plane_n);
    plane_d.spec_negated().spec_minus(ad).spec_over(bd.spec_minus(ad))
}

/// The point where the segment meets the plane:
/// `line_start + (line_end - line_start) * t`.
pub open spec fn spec_intersect_point<R: Scalar>(
    plane_p: Vec3d<R>,
    plane_n: Vec3d<R>,
    line_start: Vec3d<R>,
    line_end: Vec3d<R>,
) -> Vec3d<R> {
    spec_add_vec3d(
        line_start,
        spec_mul_vec3d(
            spec_sub_vec3d(line_end, line_start),
            spec_intersect_t(plane_p, plane_n, line_start, line_end),
        ),
    )
}

/// Where the line through `line_start` and `line_end` meets the plane, and
/// the parameter of that point along the segment.
pub fn intersect_vector_plane<R: Scalar>(
    plane_p: &Vec3d<R>,
    plane_n: &Vec3d<R>,
    line_start: &Vec3d<R>,
    line_end: &Vec3d<R>,
) -> (r: (Vec3d<R>, R))
    ensures
        r.0 == spec_intersect_point(*plane_p, *plane_n, *line_start, *line_end),
        r.1 == spec_intersect_t(*plane_p, *plane_n, *line_start, *line_end),
{
    let plane_d = dot_product(plane_n, plane_p).negated();
    let ad = dot_product(line_start, plane_n);
    let bd = dot_product(line_end, plane_n);
    let t = plane_d.negated().minus(ad).over(bd.minus(ad));
    let line_start_to_end = sub_vec3d(line_end, line_start);
    let line_to_intersect = mul_vec3d(&line_start_to_end, t);
    (add_vec3d(line_start, &line_to_intersect), t)
}

/// Signed distance of `p` from the plane, in units of the normal's length.
pub open spec fn spec_dist<R: Scalar>(plane_p: Vec3d<R>, plane_n: Vec3d<R>, p: Vec3d<R>) -> R {
    plane_n.x.spec_times(p.x).spec_plus(plane_n.y.spec_times(p.y)).spec_plus(
        plane_n.z.spec_times(p.z),
    ).spec_minus(spec_dot_product(plane_n, plane_p))
}

/// Whether `p` lies on the inside of the plane.
pub open spec fn spec_inside<R: Scalar>(plane_p: Vec3d<R>, plane_n: Vec3d<R>, p: Vec3d<R>) -> bool {
    spec_dist(plane_p, plane_n, p).spec_ge(R::spec_zero())
}

/// How many vertices of `tri` lie inside.
pub open spec fn spec_inside_count<R: Scalar>(
    plane_p: Vec3d<R>,
    plane_n: Vec3d<R>,
    tri: Triangle<R>,
) -> int {
    (if spec_inside(plane_p, plane_n, tri.vertices[0]) {
        1int
    } else {
        0int
    }) + (if spec_inside(plane_p, plane_n, tri.vertices[1]) {
        1int
    } else {
        0int
    }) + (if spec_inside(plane_p, plane_n, tri.vertices[2]) {
        1int
    } else {
        0int
    })
}

/// The index of the vertex that is number `k` (from 0) among the inside
/// vertices of `tri`, in the order of the triangle.
pub open spec fn spec_nth_inside<R: Scalar>(
    plane_p: Vec3d<R>,
    plane_n: Vec3d<R>,
    tri: Triangle<R>,
    k: int,
) -> int {
    let in0 = spec_inside(plane_p, plane_n, tri.vertices[0]);
    let in1 = spec_inside(plane_p, plane_n, tri.vertices[1]);
    if k == 0 {
        if in0 {
            0
        } else if in1 {
            1
        } else {
            2
        }
    } else if in0 && in1 {
        1
    } else {
        2
    }
}

/// The index of the vertex that is number `k` (from 0) among the outside
/// vertices of `tri`, in the order of the triangle.
pub open spec fn spec_nth_outside<R: Scalar>(
    plane_p: Vec3d<R>,
    plane_n: Vec3d<R>,
    tri: Triangle<R>,
    k: int,
) -> int {
    let in0 = spec_inside(plane_p, plane_n, tri.vertices[0]);
    let in1 = spec_inside(plane_p, plane_n, tri.vertices[1]);
    if k == 0 {
        if !in0 {
            0
        } else if !in1 {
            1
        } else {
            2
        }
    } else if !in0 && !in1 {
        1
    } else {
        2
    }
}

/// The vertex that replaces the outside vertex `o` on the edge that comes
/// from the inside vertex `i`: the point where the edge meets the plane.
pub open spec fn spec_cut_vertex<R: Scalar>(
    plane_p: Vec3d<R>,
    plane_n: Vec3d<R>,
    tri: Triangle<R>,
    i: int,
    o: int,
) -> Vec3d<R> {
    spec_intersect_point(plane_p, plane_n, tri.vertices[i], tri.vertices[o])
}

/// The texture coordinate of `spec_cut_vertex`: the coordinates of the two
/// ends, interpolated by the parameter at which the edge meets the plane.
pub open spec fn spec_cut_uv<R: Scalar>(
    plane_p: Vec3d<R>,
    plane_n: Vec3d<R>,
    tri: Triangle<R>,
    i: int,
    o: int,
) -> VecUVW<R> {
    spec_lerp_uvw(
        tri.uvs[i],
        tri.uvs[o],
        spec_intersect_t(plane_p, plane_n, tri.vertices[i], tri.vertices[o]),
    )
}

/// The part of `tri` on the inside of the plane: how many triangles it is
/// made of, and the triangles. Entries past the count are zero triangles.
///
/// - No vertex inside: nothing is left.
/// - All inside: the triangle itself.
/// - One inside: the inside vertex and the two points where its edges meet
///   the plane.
/// - Two inside: a quad, split in two triangles that share the first cut
///   point.
pub open spec fn spec_clip<R: Scalar>(plane_p: Vec3d<R>, plane_n: Vec3d<R>, tri: Triangle<R>) -> (
    int,
    [Triangle<R>; 2],
) {
    let count = spec_inside_count(plane_p, plane_n, tri);
    let i0 = spec_nth_inside(plane_p, plane_n, tri, 0);
    let i1 = spec_nth_inside(plane_p, plane_n, tri, 1);
    let o0 = spec_nth_outside(plane_p, plane_n, tri, 0);
    let o1 = spec_nth_outside(plane_p, plane_n, tri, 1);
    let none = Triangle::<R>::spec_zero_spaced_verticies();
    if count == 0 {
        (0, [none, none])
    } else if count == 3 {
        (1, [tri, none])
    } else if count == 1 {
        (
            1,
            [
                Triangle {
                    vertices: [
                        tri.vertices[i0],
                        spec_cut_vertex(plane_p, plane_n, tri, i0, o0),
                        spec_cut_vertex(plane_p, plane_n, tri, i0, o1),
                    ],
                    uvs: [
                        tri.uvs[i0],
                        spec_cut_uv(plane_p, plane_n, tri, i0, o0),
                        spec_cut_uv(plane_p, plane_n, tri, i0, o1),
                    ],
                },
                none,
            ],
        )
    } else {
        (
            2,
            [
                Triangle {
                    vertices: [
                        tri.vertices[i0],
                        tri.vertices[i1],
                        spec_cut_vertex(plane_p, plane_n, tri, i0, o0),
                    ],
                    uvs: [tri.uvs[i0], tri.uvs[i1], spec_cut_uv(plane_p, plane_n, tri, i0, o0)],
                },
                Triangle {
                    vertices: [
                        tri.vertices[i1],
                        spec_cut_vertex(plane_p, plane_n, tri, i0, o0),
                        spec_cut_vertex(plane_p, plane_n, tri, i1, o0),
                    ],
                    uvs: [
                        tri.uvs[i1],
                        spec_cut_uv(plane_p, plane_n, tri, i0, o0),
                        spec_cut_uv(plane_p, plane_n, tri, i1, o0),
                    ],
                },
            ],
        )
    }
}

/// Signed distance of `p` from the plane.
pub fn dist<R: Scalar>(plane_p: &Vec3d<R>, plane_n: &Vec3d<R>, p: &Vec3d<R>) -> (d: R)
    ensures
        d == spec_dist(*plane_p, *plane_n, *p),
{
    plane_n.x.times(p.x).plus(plane_n.y.times(p.y)).plus(plane_n.z.times(p.z)).minus(
        dot_product(plane_n, plane_p),
    )
}

fn cut<R: Scalar>(
    plane_p: &Vec3d<R>,
    plane_n: &Vec3d<R>,
    in_tri: &Triangle<R>,
    i: usize,
    o: usize,
) -> (r: (Vec3d<R>, VecUVW<R>))
    requires
        i < 3,
        o < 3,
    ensures
        r.0 == spec_cut_vertex(*plane_p, *plane_n, *in_tri, i as int, o as int),
        r.1 == spec_cut_uv(*plane_p, *plane_n, *in_tri, i as int, o as int),
{
    let (v, t) = intersect_vector_plane(plane_p, plane_n, &in_tri.vertices[i], &in_tri.vertices[o]);
    let uv = add_vec_uvw(
        &in_tri.uvs[i],
        &mul_vec_uvw(&sub_vec2_uvw(&in_tri.uvs[o], &in_tri.uvs[i]), t),
    );
    (v, uv)
}

/// Clips `in_tri` against the plane through `plane_p` with normal
/// `plane_n`. Returns the number of triangles that are left (0, 1 or 2) and
/// the triangles.
pub fn triangle_clip_against_plane<R: Scalar>(
    plane_p: &Vec3d<R>,
    plane_n: &Vec3d<R>,
    in_tri: &Triangle<R>,
) -> (r: (usize, [Triangle<R>; 2]))
    ensures
        r.0 == spec_clip(*plane_p, *plane_n, *in_tri).0,
        r.1 == spec_clip(*plane_p, *plane_n, *in_tri).1,
        r.0 <= 2,
{
    let in0 = dist(plane_p, plane_n, &in_tri.vertices[0]).ge(R::zero());
    let in1 = dist(plane_p, plane_n, &in_tri.vertices[1]).ge(R::zero());
    let in2 = dist(plane_p, plane_n, &in_tri.vertices[2]).ge(R::zero());

    let mut inside_points: [usize; 3] = [0, 0, 0];
    let mut outside_points: [usize; 3] = [0, 0, 0];
    let mut inside_counter: usize = 0;
    let mut outside_counter: usize = 0;

    if in0 {
        inside_points[inside_counter] = 0;
        inside_counter += 1;
    } else {
        outside_points[outside_counter] = 0;
        outside_counter += 1;
    }
    if in1 {
        inside_points[inside_counter] = 1;
        inside_counter += 1;
    } else {
        outside_points[outside_counter] = 1;
        outside_counter += 1;
    }
    if in2 {
        inside_points[inside_counter] = 2;
        inside_counter += 1;
    } else {
        outside_points[outside_counter] = 2;
        outside_counter += 1;
    }

    if inside_counter == 0 {
        (0, [Triangle::zero_spaced_verticies(), Triangle::zero_spaced_verticies()])
    } else if inside_counter == 3 {
        (1, [*in_tri, Triangle::zero_spaced_verticies()])
    } else if inside_counter == 1 {
        let i0 = inside_points[0];
        let (v1, uv1) = cut(plane_p, plane_n, in_tri, i0, outside_points[0]);
        let (v2, uv2) = cut(plane_p, plane_n, in_tri, i0, outside_points[1]);
        let ot = Triangle {
            vertices: [in_tri.vertices[i0], v1, v2],
            uvs: [in_tri.uvs[i0], uv1, uv2],
        };
        (1, [ot, Triangle::zero_spaced_verticies()])
    } else {
        let i0 = inside_points[0];
        let i1 = inside_points[1];
        let (v1, uv1) = cut(plane_p, plane_n, in_tri, i0, outside_points[0]);
        let ot1 = Triangle {
            vertices: [in_tri.vertices[i0], in_tri.vertices[i1], v1],
            uvs: [in_tri.uvs[i0], in_tri.uvs[i1], uv1],
        };
        let (v2, uv2) = cut(plane_p, plane_n, in_tri, i1, outside_points[0]);
        let ot2 = Triangle {
            vertices: [in_tri.vertices[i1], ot1.vertices[2], v2],
            uvs: [in_tri.uvs[i1], ot1.uvs[2], uv2],
        };
        (2, [ot1, ot2])
    }
}

/// Whether `(v, uv)` is vertex `i` of `tri` with its texture coordinate, and
/// that vertex lies inside.
pub open spec fn spec_is_kept<R: Scalar>(
    plane_p: Vec3d<R>,
    plane_n: Vec3d<R>,
    tri: Triangle<R>,
    i: int,
    v: Vec3d<R>,
    uv: VecUVW<R>,
) -> bool {
    &&& spec_inside(plane_p, plane_n, tri.vertices[i])
    &&& v == tri.vertices[i]
    &&& uv == tri.uvs[i]
}

/// Whether `(v, uv)` is the point where the edge from the inside vertex `i`
/// to the outside vertex `o` meets the plane, with the texture coordinate
/// interpolated between those of `i` and `o` by the parameter of that same
/// point.
pub open spec fn spec_is_cut<R: Scalar>(
    plane_p: Vec3d<R>,
    plane_n: Vec3d<R>,
    tri: Triangle<R>,
    i: int,
    o: int,
    v: Vec3d<R>,
    uv: VecUVW<R>,
) -> bool {
    &&& spec_inside(plane_p, plane_n, tri.vertices[i])
    &&& !spec_inside(plane_p, plane_n, tri.vertices[o])
    &&& v == spec_intersect_point(plane_p, plane_n, tri.vertices[i], tri.vertices[o])
    &&& uv == spec_lerp_uvw(
        tri.uvs[i],
        tri.uvs[o],
        spec_intersect_t(plane_p, plane_n, tri.vertices[i], tri.vertices[o]),
    )
}

/// Whether `(v, uv)` is an inside vertex of `tri` or a cut point on one of
/// the edges of `tri` that cross the plane.
pub open spec fn spec_from_triangle<R: Scalar>(
    plane_p: Vec3d<R>,
    plane_n: Vec3d<R>,
    tri: Triangle<R>,
    v: Vec3d<R>,
    uv: VecUVW<R>,
) -> bool {
    ||| spec_is_kept(plane_p, plane_n, tri, 0, v, uv)
    ||| spec_is_kept(plane_p, plane_n, tri, 1, v, uv)
    ||| spec_is_kept(plane_p, plane_n, tri, 2, v, uv)
    ||| spec_is_cut(plane_p, plane_n, tri, 0, 1, v, uv)
    ||| spec_is_cut(plane_p, plane_n, tri, 0, 2, v, uv)
    ||| spec_is_cut(plane_p, plane_n, tri, 1, 0, v, uv)
    ||| spec_is_cut(plane_p, plane_n, tri, 1, 2, v, uv)
    ||| spec_is_cut(plane_p, plane_n, tri, 2, 0, v, uv)
    ||| spec_is_cut(plane_p, plane_n, tri, 2, 1, v, uv)
}

/// Whether every corner of `out` comes from `tri` as `spec_from_triangle`
/// says.
pub open spec fn spec_corners_from<R: Scalar>(
    plane_p: Vec3d<R>,
    plane_n: Vec3d<R>,
    tri: Triangle<R>,
    out: Triangle<R>,
) -> bool {
    &&& spec_from_triangle(plane_p, plane_n, tri, out.vertices[0], out.uvs[0])
    &&& spec_from_triangle(plane_p, plane_n, tri, out.vertices[1], out.uvs[1])
    &&& spec_from_triangle(plane_p, plane_n, tri, out.vertices[2], out.uvs[2])
}

/// Clipping conserves the triangle's inside part: nothing is left exactly
/// when no vertex is inside, and every corner of every triangle that is
/// left is an inside vertex of the input or lies where an edge from an
/// inside vertex to an outside vertex meets the plane.
pub proof fn lemma_clip_conservation<R: Scalar>(
    plane_p: Vec3d<R>,
    plane_n: Vec3d<R>,
    tri: Triangle<R>,
)
    ensures
        0 <= spec_clip(plane_p, plane_n, tri).0 <= 2,
        spec_clip(plane_p, plane_n, tri).0 == 0 <==> spec_inside_count(plane_p, plane_n, tri)
            == 0,
        spec_clip(plane_p, plane_n, tri).0 == 2 <==> spec_inside_count(plane_p, plane_n, tri)
            == 2,
        spec_clip(plane_p, plane_n, tri).0 >= 1 ==> spec_corners_from(
            plane_p,
            plane_n,
            tri,
            spec_clip(plane_p, plane_n, tri).1[0],
        ),
        spec_clip(plane_p, plane_n, tri).0 == 2 ==> spec_corners_from(
            plane_p,
            plane_n,
            tri,
            spec_clip(plane_p, plane_n, tri).1[1],
        ),
{
}

/// At a vertex that clipping creates, the texture coordinate is the linear
/// interpolation of the coordinates of the edge's two ends by the same parameter that
/// places the vertex on its edge.
pub proof fn lemma_clip_uv_continuity<R: Scalar>(
    plane_p: Vec3d<R>,
    plane_n: Vec3d<R>,
    tri: Triangle<R>,
    k: int,
    j: int,
)
    requires
        0 <= k < spec_clip(plane_p, plane_n, tri).0,
        0 <= j < 3,
    ensures
        ({
            let out = spec_clip(plane_p, plane_n, tri).1[k];
            ||| exists|i: int|
                0 <= i < 3 && out.vertices[j] == tri.vertices[i] && out.uvs[j] == tri.uvs[i]
            ||| exists|i: int, o: int|
                0 <= i < 3 && 0 <= o < 3 && i != o && out.vertices[j] == spec_intersect_point(
                    plane_p,
                    plane_n,
                    tri.vertices[i],
                    tri.vertices[o],
                ) && out.uvs[j] == spec_lerp_uvw(
                    tri.uvs[i],
                    tri.uvs[o],
                    spec_intersect_t(plane_p, plane_n, tri.vertices[i], tri.vertices[o]),
                )
        }),
{
    lemma_clip_conservation(plane_p, plane_n, tri);
    let out = spec_clip(plane_p, plane_n, tri).1[k];
    assert(spec_corners_from(plane_p, plane_n, tri, out));
    let v = out.vertices[j];
    let uv = out.uvs[j];
    assert(spec_from_triangle(plane_p, plane_n, tri, v, uv));
    if spec_is_kept(plane_p, plane_n, tri, 0, v, uv) {
        assert(v == tri.vertices[0] && uv == tri.uvs[0]);
    } else if spec_is_kept(plane_p, plane_n, tri, 1, v, uv) {
        assert(v == tri.vertices[1] && uv == tri.uvs[1]);
    } else if spec_is_kept(plane_p, plane_n, tri, 2, v, uv) {
        assert(v == tri.vertices[2] && uv == tri.uvs[2]);
    } else {
        let (i, o): (int, int) = if spec_is_cut(plane_p, plane_n, tri, 0, 1, v, uv) {
            (0, 1)
        } else if spec_is_cut(plane_p, plane_n, tri, 0, 2, v, uv) {
            (0, 2)
        } else if spec_is_cut(plane_p, plane_n, tri, 1, 0, v, uv) {
            (1, 0)
        } else if spec_is_cut(plane_p, plane_n, tri, 1, 2, v, uv) {
            (1, 2)
        } else if spec_is_cut(plane_p, plane_n, tri, 2, 0, v, uv) {
            (2, 0)
        } else {
            (2, 1)
        };
        assert(spec_is_cut(plane_p, plane_n, tri, i, o, v, uv));
        assert(0 <= i < 3 && 0 <= o < 3 && i != o && v == spec_intersect_point(
            plane_p,
            plane_n,
            tri.vertices[i],
            tri.vertices[o],
        ) && uv == spec_lerp_uvw(
            tri.uvs[i],
            tri.uvs[o],
            spec_intersect_t(plane_p, plane_n, tri.vertices[i], tri.vertices[o]),
        ));
    }
}

/// A triangle with all three vertices inside passes through unchanged.
pub proof fn lemma_clip_pass_through<R: Scalar>(
    plane_p: Vec3d<R>,
    plane_n: Vec3d<R>,
    tri: Triangle<R>,
)
    requires
        spec_inside(plane_p, plane_n, tri.vertices[0]),
        spec_inside(plane_p, plane_n, tri.vertices[1]),
        spec_inside(plane_p, plane_n, tri.vertices[2]),
    ensures
        spec_clip(plane_p, plane_n, tri).0 == 1,
        spec_clip(plane_p, plane_n, tri).1[0] == tri,
{
}

/// The two triangles of a clipped quad share the first cut point, position
/// and texture coordinate alike.
pub proof fn lemma_clip_shared_vertex<R: Scalar>(
    plane_p: Vec3d<R>,
    plane_n: Vec3d<R>,
    tri: Triangle<R>,
)
    requires
        spec_clip(plane_p, plane_n, tri).0 == 2,
    ensures
        spec_clip(plane_p, plane_n, tri).1[1].vertices[1] == spec_clip(
            plane_p,
            plane_n,
            tri,
        ).1[0].vertices[2],
        spec_clip(plane_p, plane_n, tri).1[1].uvs[1] == spec_clip(plane_p, plane_n, tri).1[0].uvs[2],
{
}

} // verus!
