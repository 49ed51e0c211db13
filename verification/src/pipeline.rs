//! The frame: from the triangles of a mesh to pixels.
//!
//! Each triangle is moved into the world and then into view space, clipped
//! against the near plane, projected onto the screen, clipped against the
//! four edges of the screen and scan converted. Triangles are drawn in the
//! order of the mesh; what hides what is left to the depth test.

use crate::clip::{spec_clip, triangle_clip_against_plane};
use crate::frame::{spec_cleared, Frame, FrameModel};
use crate::matrix::{
    mul_matrix, multiply_vector_matrix, spec_mul_matrix, spec_multiply_vector_matrix,
    spec_transition_matrix, transition_matrix, Matrix4x4,
};
use crate::raster::{
    spec_blend, spec_draw_span, spec_screen_vertices, spec_texture_triangle, texture_triangle_safe,
};
use crate::scalar::Scalar;
use crate::texture::Texture;
use crate::vector::{div_vec3d, spec_div_vec3d, Triangle, Vec3d, VecUVW};
use vstd::prelude::*;

verus! {

/// The matrices of one frame.
#[derive(Copy, Clone, Debug)]
pub struct FrameSetup<R: Scalar> {
    /// Object space to world space.
    pub world: Matrix4x4<R>,
    /// World space to view space.
    pub view: Matrix4x4<R>,
    /// View space to clip space.
    pub projection: Matrix4x4<R>,
    /// Depth of the near clip plane in view space.
    pub clip_plane_near: R,
}

/// The world matrix of an object that is lifted by `lift` along y, turned
/// by `rotation` and then moved by `(0, shift_y, shift_z)`.
pub open spec fn spec_world_matrix<R: Scalar>(
    lift: R,
    rotation: Matrix4x4<R>,
    shift_y: R,
    shift_z: R,
) -> Matrix4x4<R> {
    spec_mul_matrix(
        spec_mul_matrix(
            spec_mul_matrix(
                Matrix4x4::spec_ones_cascade(),
                spec_transition_matrix(R::spec_zero(), lift, R::spec_zero()),
            ),
            rotation,
        ),
        spec_transition_matrix(R::spec_zero(), shift_y, shift_z),
    )
}

pub fn world_matrix<R: Scalar>(lift: R, rotation: &Matrix4x4<R>, shift_y: R, shift_z: R) -> (m:
    Matrix4x4<R>)
    ensures
        m == spec_world_matrix(lift, *rotation, shift_y, shift_z),
{
    let mut mat_world = Matrix4x4::ones_cascade();
    mat_world = mul_matrix(&mat_world, &transition_matrix(R::zero(), lift, R::zero()));
    mat_world = mul_matrix(&mat_world, rotation);
    mat_world = mul_matrix(&mat_world, &transition_matrix(R::zero(), shift_y, shift_z));
    mat_world
}

/// `tri` with each vertex multiplied by `m`; texture coordinates are kept.
pub open spec fn spec_transform_triangle<R: Scalar>(tri: Triangle<R>, m: Matrix4x4<R>) -> Triangle<
    R,
> {
    Triangle {
        vertices: [
            spec_multiply_vector_matrix(tri.vertices[0], m),
            spec_multiply_vector_matrix(tri.vertices[1], m),
            spec_multiply_vector_matrix(tri.vertices[2], m),
        ],
        uvs: tri.uvs,
    }
}

pub fn transform_triangle<R: Scalar>(tri: &Triangle<R>, m: &Matrix4x4<R>) -> (r: Triangle<R>)
    ensures
        r == spec_transform_triangle(*tri, *m),
{
    Triangle {
        vertices: [
            multiply_vector_matrix(&tri.vertices[0], m),
            multiply_vector_matrix(&tri.vertices[1], m),
            multiply_vector_matrix(&tri.vertices[2], m),
        ],
        uvs: tri.uvs,
    }
}

/// Half of `size` pixels, as a number.
pub open spec fn spec_half_extent<R: Scalar>(size: u16) -> R {
    R::spec_one().spec_over(R::spec_from_i32(2)).spec_times(R::spec_from_i32(size as i32))
}

/// A projected vertex on a screen of `width` by `height` pixels: divided by
/// its `w`, mirrored in x and y, moved so that the origin is the middle of
/// the screen and scaled to pixels.
pub open spec fn spec_to_screen<R: Scalar>(p: Vec3d<R>, width: u16, height: u16) -> Vec3d<R> {
    let d = spec_div_vec3d(p, p.w);
    let minus_one = R::spec_one().spec_negated();
    Vec3d {
        x: d.x.spec_times(minus_one).spec_plus(R::spec_one()).spec_times(
            spec_half_extent(width),
        ),
        y: d.y.spec_times(minus_one).spec_plus(R::spec_one()).spec_times(
            spec_half_extent(height),
        ),
        z: d.z,
        w: d.w,
    }
}

/// The texture coordinate of a projected vertex whose clip-space `w` is
/// `w`: `u` and `v` divided by `w`, and one over `w` as the depth weight.
pub open spec fn spec_premultiply<R: Scalar>(uv: VecUVW<R>, w: R) -> VecUVW<R> {
    VecUVW { u: uv.u.spec_over(w), v: uv.v.spec_over(w), w: R::spec_one().spec_over(w) }
}

/// A view-space triangle projected onto the screen.
pub open spec fn spec_project_triangle<R: Scalar>(
    tri: Triangle<R>,
    projection: Matrix4x4<R>,
    width: u16,
    height: u16,
) -> Triangle<R> {
    let p = spec_transform_triangle(tri, projection);
    Triangle {
        vertices: [
            spec_to_screen(p.vertices[0], width, height),
            spec_to_screen(p.vertices[1], width, height),
            spec_to_screen(p.vertices[2], width, height),
        ],
        uvs: [
            spec_premultiply(p.uvs[0], p.vertices[0].w),
            spec_premultiply(p.uvs[1], p.vertices[1].w),
            spec_premultiply(p.uvs[2], p.vertices[2].w),
        ],
    }
}

fn to_screen<R: Scalar>(p: &Vec3d<R>, width: u16, height: u16) -> (r: Vec3d<R>)
    ensures
        r == spec_to_screen(*p, width, height),
{
    let mut d = div_vec3d(p, p.w);
    let minus_one = R::one().negated();
    d.x = d.x.times(minus_one);
    d.y = d.y.times(minus_one);
    d.x = d.x.plus(R::one());
    d.y = d.y.plus(R::one());
    d.x = d.x.times(R::one().over(R::from_i32(2)).times(R::from_i32(width as i32)));
    d.y = d.y.times(R::one().over(R::from_i32(2)).times(R::from_i32(height as i32)));
    d
}

fn premultiply<R: Scalar>(uv: &VecUVW<R>, w: R) -> (r: VecUVW<R>)
    ensures
        r == spec_premultiply(*uv, w),
{
    VecUVW { u: uv.u.over(w), v: uv.v.over(w), w: R::one().over(w) }
}

/// Projects a view-space triangle onto a screen of `width` by `height`
/// pixels and prepares its texture coordinates for perspective-correct
/// interpolation.
pub fn project_triangle<R: Scalar>(
    tri: &Triangle<R>,
    projection: &Matrix4x4<R>,
    width: u16,
    height: u16,
) -> (r: Triangle<R>)
    ensures
        r == spec_project_triangle(*tri, *projection, width, height),
{
    let p = transform_triangle(tri, projection);
    Triangle {
        vertices: [
            to_screen(&p.vertices[0], width, height),
            to_screen(&p.vertices[1], width, height),
            to_screen(&p.vertices[2], width, height),
        ],
        uvs: [
            premultiply(&p.uvs[0], p.vertices[0].w),
            premultiply(&p.uvs[1], p.vertices[1].w),
            premultiply(&p.uvs[2], p.vertices[2].w),
        ],
    }
}

/// The triangles that clipping `tri` leaves, in order.
pub open spec fn spec_clip_one<R: Scalar>(
    plane_p: Vec3d<R>,
    plane_n: Vec3d<R>,
    tri: Triangle<R>,
) -> Seq<Triangle<R>> {
    let c = spec_clip(plane_p, plane_n, tri);
    if c.0 == 0 {
        Seq::empty()
    } else if c.0 == 1 {
        seq![c.1[0]]
    } else {
        seq![c.1[0], c.1[1]]
    }
}

/// The triangles that clipping every triangle of `tris` leaves, in the
/// order of `tris`.
pub open spec fn spec_clip_all<R: Scalar>(
    plane_p: Vec3d<R>,
    plane_n: Vec3d<R>,
    tris: Seq<Triangle<R>>,
) -> Seq<Triangle<R>>
    decreases tris.len(),
{
    if tris.len() == 0 {
        Seq::empty()
    } else {
        spec_clip_all(plane_p, plane_n, tris.drop_last()) + spec_clip_one(
            plane_p,
            plane_n,
            tris.last(),
        )
    }
}

/// Every triangle of `tris` projected onto the screen.
pub open spec fn spec_project_all<R: Scalar>(
    tris: Seq<Triangle<R>>,
    projection: Matrix4x4<R>,
    width: u16,
    height: u16,
) -> Seq<Triangle<R>> {
    Seq::new(tris.len(), |i: int| spec_project_triangle(tris[i], projection, width, height))
}

/// The clip plane at the near depth `near`, facing away from the viewer.
pub open spec fn spec_near_plane<R: Scalar>(near: R) -> (Vec3d<R>, Vec3d<R>) {
    (
        Vec3d::spec_xyz1(R::spec_zero(), R::spec_zero(), near),
        Vec3d::spec_xyz1(R::spec_zero(), R::spec_zero(), R::spec_one()),
    )
}

/// The clip plane along the top edge of the screen.
pub open spec fn spec_top_plane<R: Scalar>() -> (Vec3d<R>, Vec3d<R>) {
    (
        Vec3d::spec_xyz1(R::spec_zero(), R::spec_zero(), R::spec_zero()),
        Vec3d::spec_xyz1(R::spec_zero(), R::spec_one(), R::spec_zero()),
    )
}

/// The clip plane along the bottom edge of a screen of `height` rows.
pub open spec fn spec_bottom_plane<R: Scalar>(height: u16) -> (Vec3d<R>, Vec3d<R>) {
    (
        Vec3d::spec_xyz1(R::spec_zero(), R::spec_from_i32((height - 1) as i32), R::spec_zero()),
        Vec3d::spec_xyz1(R::spec_zero(), R::spec_one().spec_negated(), R::spec_zero()),
    )
}

/// The clip plane along the left edge of the screen.
pub open spec fn spec_left_plane<R: Scalar>() -> (Vec3d<R>, Vec3d<R>) {
    (
        Vec3d::spec_xyz1(R::spec_zero(), R::spec_zero(), R::spec_zero()),
        Vec3d::spec_xyz1(R::spec_one(), R::spec_zero(), R::spec_zero()),
    )
}

/// The clip plane along the right edge of a screen of `width` columns.
pub open spec fn spec_right_plane<R: Scalar>(width: u16) -> (Vec3d<R>, Vec3d<R>) {
    (
        Vec3d::spec_xyz1(R::spec_from_i32(width as i32), R::spec_zero(), R::spec_zero()),
        Vec3d::spec_xyz1(R::spec_one().spec_negated(), R::spec_zero(), R::spec_zero()),
    )
}

/// What is drawn for the mesh triangle `tri`: the screen triangles that are
/// left of it after the near plane and the four screen edges, in drawing
/// order.
pub open spec fn spec_visible_triangles<R: Scalar>(
    setup: FrameSetup<R>,
    width: u16,
    height: u16,
    tri: Triangle<R>,
) -> Seq<Triangle<R>> {
    let viewed = spec_transform_triangle(spec_transform_triangle(tri, setup.world), setup.view);
    let near = spec_near_plane(setup.clip_plane_near);
    let in_front = spec_clip_one(near.0, near.1, viewed);
    let projected = spec_project_all(in_front, setup.projection, width, height);
    let top = spec_top_plane::<R>();
    let bottom = spec_bottom_plane::<R>(height);
    let left = spec_left_plane::<R>();
    let right = spec_right_plane::<R>(width);
    spec_clip_all(
        right.0,
        right.1,
        spec_clip_all(
            left.0,
            left.1,
            spec_clip_all(bottom.0, bottom.1, spec_clip_all(top.0, top.1, projected)),
        ),
    )
}

/// The frame after the screen triangles `tris` have been drawn in order.
pub open spec fn spec_draw_all<R: Scalar>(
    m: FrameModel<R>,
    width: u16,
    height: u16,
    texture: Texture,
    tris: Seq<Triangle<R>>,
) -> FrameModel<R>
    decreases tris.len(),
{
    if tris.len() == 0 {
        m
    } else {
        spec_draw_all(
            spec_texture_triangle(
                m,
                width as int,
                height as int,
                texture,
                spec_screen_vertices(tris[0], width, height),
            ),
            width,
            height,
            texture,
            tris.drop_first(),
        )
    }
}

/// The frame after the triangles of `mesh` have been drawn in order.
pub open spec fn spec_draw_mesh<R: Scalar>(
    m: FrameModel<R>,
    width: u16,
    height: u16,
    texture: Texture,
    setup: FrameSetup<R>,
    mesh: Seq<Triangle<R>>,
) -> FrameModel<R>
    decreases mesh.len(),
{
    if mesh.len() == 0 {
        m
    } else {
        spec_draw_mesh(
            spec_draw_all(
                m,
                width,
                height,
                texture,
                spec_visible_triangles(setup, width, height, mesh[0]),
            ),
            width,
            height,
            texture,
            setup,
            mesh.drop_first(),
        )
    }
}

/// A whole frame: the cleared target with the mesh drawn onto it.
pub open spec fn spec_render_frame<R: Scalar>(
    width: u16,
    height: u16,
    texture: Texture,
    setup: FrameSetup<R>,
    mesh: Seq<Triangle<R>>,
) -> FrameModel<R> {
    spec_draw_mesh(
        spec_cleared::<R>(width as int, height as int),
        width,
        height,
        texture,
        setup,
        mesh,
    )
}

fn clip_one<R: Scalar>(
    plane_p: &Vec3d<R>,
    plane_n: &Vec3d<R>,
    tri: &Triangle<R>,
    out: &mut Vec<Triangle<R>>,
)
    ensures
        final(out)@ == old(out)@ + spec_clip_one(*plane_p, *plane_n, *tri),
{
    let (count, clipped) = triangle_clip_against_plane(plane_p, plane_n, tri);
    if count >= 1 {
        out.push(clipped[0]);
    }
    if count >= 2 {
        out.push(clipped[1]);
    }
    assert(out@ =~= old(out)@ + spec_clip_one(*plane_p, *plane_n, *tri));
}

/// Clips every triangle of `tris` against the plane and collects what is
/// left, in order.
pub fn clip_all<R: Scalar>(plane_p: &Vec3d<R>, plane_n: &Vec3d<R>, tris: &Vec<Triangle<R>>) -> (out:
    Vec<Triangle<R>>)
    ensures
        out@ == spec_clip_all(*plane_p, *plane_n, tris@),
{
    let mut out: Vec<Triangle<R>> = Vec::new();
    let mut i: usize = 0;
    while i < tris.len()
        invariant
            i <= tris.len(),
            out@ == spec_clip_all(*plane_p, *plane_n, tris@.take(i as int)),
        decreases tris.len() - i,
    {
        clip_one(plane_p, plane_n, &tris[i], &mut out);
        assert(tris@.take(i + 1).drop_last() =~= tris@.take(i as int));
        i += 1;
    }
    assert(tris@.take(i as int) =~= tris@);
    out
}

fn project_all<R: Scalar>(
    tris: &Vec<Triangle<R>>,
    projection: &Matrix4x4<R>,
    width: u16,
    height: u16,
) -> (out: Vec<Triangle<R>>)
    ensures
        out@ == spec_project_all(tris@, *projection, width, height),
{
    let mut out: Vec<Triangle<R>> = Vec::new();
    let mut i: usize = 0;
    while i < tris.len()
        invariant
            i <= tris.len(),
            out@.len() == i,
            forall|k: int|
                0 <= k < i ==> out@[k] == spec_project_triangle(
                    tris@[k],
                    *projection,
                    width,
                    height,
                ),
        decreases tris.len() - i,
    {
        out.push(project_triangle(&tris[i], projection, width, height));
        i += 1;
    }
    assert(out@ =~= spec_project_all(tris@, *projection, width, height));
    out
}

/// The screen triangles that are left of the mesh triangle `tri`, in
/// drawing order.
pub fn visible_triangles<R: Scalar>(
    setup: &FrameSetup<R>,
    width: u16,
    height: u16,
    tri: &Triangle<R>,
) -> (out: Vec<Triangle<R>>)
    requires
        height >= 1,
    ensures
        out@ == spec_visible_triangles(*setup, width, height, *tri),
{
    let o = R::zero();
    let i = R::one();
    let translated = transform_triangle(tri, &setup.world);
    let viewed = transform_triangle(&translated, &setup.view);

    let mut in_front: Vec<Triangle<R>> = Vec::new();
    clip_one(
        &Vec3d::xyz1(o, o, setup.clip_plane_near),
        &Vec3d::xyz1(o, o, i),
        &viewed,
        &mut in_front,
    );
    assert(in_front@ =~= spec_clip_one(
        spec_near_plane(setup.clip_plane_near).0,
        spec_near_plane(setup.clip_plane_near).1,
        viewed,
    ));
    let projected = project_all(&in_front, &setup.projection, width, height);

    let top = clip_all(&Vec3d::xyz1(o, o, o), &Vec3d::xyz1(o, i, o), &projected);
    let bottom = clip_all(
        &Vec3d::xyz1(o, R::from_i32(height as i32 - 1), o),
        &Vec3d::xyz1(o, i.negated(), o),
        &top,
    );
    let left = clip_all(&Vec3d::xyz1(o, o, o), &Vec3d::xyz1(i, o, o), &bottom);
    clip_all(&Vec3d::xyz1(R::from_i32(width as i32), o, o), &Vec3d::xyz1(i.negated(), o, o), &left)
}

/// Draws the screen triangles `tris` in order.
pub fn draw_all<R: Scalar>(frame: &mut Frame<R>, texture: &Texture, tris: &Vec<Triangle<R>>)
    requires
        old(frame).wf(),
        texture.wf(),
    ensures
        final(frame).wf(),
        final(frame).width == old(frame).width,
        final(frame).height == old(frame).height,
        final(frame)@ == spec_draw_all(
            old(frame)@,
            old(frame).width,
            old(frame).height,
            *texture,
            tris@,
        ),
{
    let mut i: usize = 0;
    assert(tris@.skip(0) =~= tris@);
    while i < tris.len()
        invariant
            i <= tris.len(),
            frame.wf(),
            texture.wf(),
            frame.width == old(frame).width,
            frame.height == old(frame).height,
            spec_draw_all(frame@, frame.width, frame.height, *texture, tris@.skip(i as int))
                == spec_draw_all(
                old(frame)@,
                old(frame).width,
                old(frame).height,
                *texture,
                tris@,
            ),
        decreases tris.len() - i,
    {
        assert(tris@.skip(i as int).drop_first() =~= tris@.skip(i + 1));
        texture_triangle_safe(frame, &tris[i], texture);
        i += 1;
    }
}

/// Draws the mesh onto the frame as it is, without clearing it first.
pub fn draw_mesh<R: Scalar>(
    frame: &mut Frame<R>,
    texture: &Texture,
    setup: &FrameSetup<R>,
    mesh: &Vec<Triangle<R>>,
)
    requires
        old(frame).wf(),
        texture.wf(),
        old(frame).height >= 1,
    ensures
        final(frame).wf(),
        final(frame).width == old(frame).width,
        final(frame).height == old(frame).height,
        final(frame)@ == spec_draw_mesh(
            old(frame)@,
            old(frame).width,
            old(frame).height,
            *texture,
            *setup,
            mesh@,
        ),
{
    let mut i: usize = 0;
    assert(mesh@.skip(0) =~= mesh@);
    while i < mesh.len()
        invariant
            i <= mesh.len(),
            frame.wf(),
            texture.wf(),
            frame.height >= 1,
            frame.width == old(frame).width,
            frame.height == old(frame).height,
            spec_draw_mesh(
                frame@,
                frame.width,
                frame.height,
                *texture,
                *setup,
                mesh@.skip(i as int),
            ) == spec_draw_mesh(
                old(frame)@,
                old(frame).width,
                old(frame).height,
                *texture,
                *setup,
                mesh@,
            ),
        decreases mesh.len() - i,
    {
        assert(mesh@.skip(i as int).drop_first() =~= mesh@.skip(i + 1));
        let visible = visible_triangles(setup, frame.width, frame.height, &mesh[i]);
        draw_all(frame, texture, &visible);
        i += 1;
    }
}

/// Renders one frame: clears both buffers, then draws the mesh. What the
/// frame held before does not matter.
pub fn render_frame<R: Scalar>(
    frame: &mut Frame<R>,
    texture: &Texture,
    setup: &FrameSetup<R>,
    mesh: &Vec<Triangle<R>>,
)
    requires
        old(frame).wf(),
        texture.wf(),
        old(frame).height >= 1,
    ensures
        final(frame).wf(),
        final(frame).width == old(frame).width,
        final(frame).height == old(frame).height,
        final(frame)@ == spec_render_frame(
            old(frame).width,
            old(frame).height,
            *texture,
            *setup,
            mesh@,
        ),
{
    frame.clear();
    draw_mesh(frame, texture, setup, mesh);
}

/// Texture mapping is perspective correct. Take a span between two
/// projected vertices with the texture coordinates `uv0`, `uv1` and the
/// clip-space depths `w0`, `w1`. The fragment at the parameter `t` of the
/// span, where it passes the depth test, shows the texel at
/// `lerp(uv0 / w0, uv1 / w1, t) / lerp(1 / w0, 1 / w1, t)`, where
/// `lerp(a, b, t)` is `(1 - t) * a + t * b`: the coordinates are
/// interpolated premultiplied by the depth weight and divided by the
/// interpolated weight, not interpolated as they are.
pub proof fn lemma_perspective_correct<R: Scalar>(
    m: FrameModel<R>,
    width: int,
    height: int,
    texture: Texture,
    x: int,
    y: int,
    t: R,
    t_step: R,
    uv0: VecUVW<R>,
    w0: R,
    uv1: VecUVW<R>,
    w1: R,
)
    requires
        0 <= x < width,
        0 <= y < height,
        m.image.len() == 4 * (width * height),
        m.inv_depth.len() == width * height,
        texture.wf(),
        spec_blend(spec_premultiply(uv0, w0), spec_premultiply(uv1, w1), t).w.spec_gt(
            m.inv_depth[y * width + x],
        ),
    ensures
        ({
            let one_minus_t = R::spec_one().spec_minus(t);
            let u = one_minus_t.spec_times(uv0.u.spec_over(w0)).spec_plus(
                t.spec_times(uv1.u.spec_over(w1)),
            );
            let v = one_minus_t.spec_times(uv0.v.spec_over(w0)).spec_plus(
                t.spec_times(uv1.v.spec_over(w1)),
            );
            let w = one_minus_t.spec_times(R::spec_one().spec_over(w0)).spec_plus(
                t.spec_times(R::spec_one().spec_over(w1)),
            );
            let after = spec_draw_span(
                m,
                width,
                height,
                texture,
                y,
                x,
                x + 1,
                t,
                t_step,
                spec_premultiply(uv0, w0),
                spec_premultiply(uv1, w1),
            );
            let pix = y * width + x;
            let texel = texture.spec_sample(u.spec_over(w), v.spec_over(w));
            &&& after.inv_depth[pix] == w
            &&& after.image[4 * pix] == texel[0]
            &&& after.image[4 * pix + 1] == texel[1]
            &&& after.image[4 * pix + 2] == texel[2]
            &&& after.image[4 * pix + 3] == texel[3]
        }),
{
    let s = spec_premultiply(uv0, w0);
    let e = spec_premultiply(uv1, w1);
    let f = spec_blend(s, e, t);
    let pix = y * width + x;
    assert(0 <= pix < width * height) by (nonlinear_arith)
        requires
            0 <= x < width,
            0 <= y < height,
            pix == y * width + x,
    ;
    let drawn = crate::frame::spec_fragment(m, width, height, x, y, f.u, f.v, f.w, texture);
    assert(spec_draw_span(m, width, height, texture, y, x, x + 1, t, t_step, s, e)
        == spec_draw_span(
        drawn,
        width,
        height,
        texture,
        y,
        x + 1,
        x + 1,
        t.spec_plus(t_step),
        t_step,
        s,
        e,
    ));
}

} // verus!
