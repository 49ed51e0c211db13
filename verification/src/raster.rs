//! Scan conversion of textured triangles.
//!
//! The three vertices are sorted by row. The triangle is then filled in two
//! bands that share the middle vertex: from the top vertex down to the
//! middle one, and from there down to the bottom one. In each row of a band
//! the two edges give the ends of a span; texture coordinate and depth
//! weight are interpolated along the edges and then across the span. Every
//! fragment goes through the bounds check and the depth test of
//! `Frame::plot`.

use crate::arith::spec_clamp;
use crate::frame::{spec_fragment, Frame, FrameModel};
use crate::scalar::Scalar;
use crate::texture::Texture;
use crate::vector::{Triangle, VecUVW};
use vstd::prelude::*;

verus! {

/// A vertex on the screen: its column and row, and its premultiplied
/// texture coordinate with the depth weight.
#[derive(Copy, Clone, Debug)]
pub struct ScreenVertex<R: Scalar> {
    pub x: i16,
    pub y: i16,
    pub uvw: VecUVW<R>,
}

/// An edge as the scan conversion walks it: where it starts and by how much
/// column, texture coordinate and depth weight change from one row to the
/// next.
#[derive(Copy, Clone, Debug)]
pub struct Edge<R: Scalar> {
    pub x: i16,
    pub y: i16,
    pub uvw: VecUVW<R>,
    pub x_step: R,
    pub uvw_step: VecUVW<R>,
}

/// The vertices in ascending order of their rows, as three exchanges find
/// it: second with first, third with first, third with second, each made
/// where the later vertex has the strictly smaller row.
pub open spec fn spec_sort_by_y<R: Scalar>(v: [ScreenVertex<R>; 3]) -> [ScreenVertex<R>; 3] {
    let a: [ScreenVertex<R>; 3] = if v[1].y < v[0].y {
        [v[1], v[0], v[2]]
    } else {
        v
    };
    let b: [ScreenVertex<R>; 3] = if a[2].y < a[0].y {
        [a[2], a[1], a[0]]
    } else {
        a
    };
    if b[2].y < b[1].y {
        [b[0], b[2], b[1]]
    } else {
        b
    }
}

/// The edge from `from` down to `to`. Its steps are the differences divided
/// by the number of rows between the two; an edge within one row has steps
/// of zero.
pub open spec fn spec_edge<R: Scalar>(from: ScreenVertex<R>, to: ScreenVertex<R>) -> Edge<R> {
    let dy = to.y - from.y;
    let rows = R::spec_from_i32(
        (if dy < 0 {
            -dy
        } else {
            dy
        }) as i32,
    );
    if dy != 0 {
        Edge {
            x: from.x,
            y: from.y,
            uvw: from.uvw,
            x_step: R::spec_from_i32((to.x - from.x) as i32).spec_over(rows),
            uvw_step: VecUVW {
                u: to.uvw.u.spec_minus(from.uvw.u).spec_over(rows),
                v: to.uvw.v.spec_minus(from.uvw.v).spec_over(rows),
                w: to.uvw.w.spec_minus(from.uvw.w).spec_over(rows),
            },
        }
    } else {
        Edge {
            x: from.x,
            y: from.y,
            uvw: from.uvw,
            x_step: R::spec_zero(),
            uvw_step: VecUVW::spec_zero_vec(),
        }
    }
}

/// The column of the edge in row `y`: the start column plus the row offset
/// times the step, without its fraction and brought into the range of
/// `i16`.
pub open spec fn spec_edge_x<R: Scalar>(e: Edge<R>, y: int) -> int {
    e.x + spec_clamp(
        R::spec_from_i32((y - e.y) as i32).spec_times(e.x_step).spec_trunc_i32() as int,
        i16::MIN as int,
        i16::MAX as int,
    )
}

/// Texture coordinate and depth weight of the edge in row `y`.
pub open spec fn spec_edge_uvw<R: Scalar>(e: Edge<R>, y: int) -> VecUVW<R> {
    let rows = R::spec_from_i32((y - e.y) as i32);
    VecUVW {
        u: e.uvw.u.spec_plus(rows.spec_times(e.uvw_step.u)),
        v: e.uvw.v.spec_plus(rows.spec_times(e.uvw_step.v)),
        w: e.uvw.w.spec_plus(rows.spec_times(e.uvw_step.w)),
    }
}

/// The blend `(1 - t) * s + t * e`, component by component.
pub open spec fn spec_blend<R: Scalar>(s: VecUVW<R>, e: VecUVW<R>, t: R) -> VecUVW<R> {
    VecUVW {
        u: R::spec_one().spec_minus(t).spec_times(s.u).spec_plus(t.spec_times(e.u)),
        v: R::spec_one().spec_minus(t).spec_times(s.v).spec_plus(t.spec_times(e.v)),
        w: R::spec_one().spec_minus(t).spec_times(s.w).spec_plus(t.spec_times(e.w)),
    }
}

/// The frame after the fragments of the columns `x` up to, not including,
/// `bx` of row `y` have been drawn from left to right. The fragment in a
/// column is the blend of `s` and `e` at the parameter `t`, which grows by
/// `t_step` from column to column.
pub open spec fn spec_draw_span<R: Scalar>(
    m: FrameModel<R>,
    width: int,
    height: int,
    texture: Texture,
    y: int,
    x: int,
    bx: int,
    t: R,
    t_step: R,
    s: VecUVW<R>,
    e: VecUVW<R>,
) -> FrameModel<R>
    decreases bx - x,
{
    if x >= bx {
        m
    } else {
        let f = spec_blend(s, e, t);
        spec_draw_span(
            spec_fragment(m, width, height, x, y, f.u, f.v, f.w, texture),
            width,
            height,
            texture,
            y,
            x + 1,
            bx,
            t.spec_plus(t_step),
            t_step,
            s,
            e,
        )
    }
}

/// The frame after row `y` between the edges `a` and `b` has been drawn.
/// The span runs from the edge that is further left in this row to the
/// other; the parameter across it starts at zero and grows by one over the
/// number of columns.
pub open spec fn spec_draw_scanline<R: Scalar>(
    m: FrameModel<R>,
    width: int,
    height: int,
    texture: Texture,
    y: int,
    a: Edge<R>,
    b: Edge<R>,
) -> FrameModel<R> {
    let ax = spec_edge_x(a, y);
    let bx = spec_edge_x(b, y);
    let lo = if ax > bx {
        bx
    } else {
        ax
    };
    let hi = if ax > bx {
        ax
    } else {
        bx
    };
    let s = if ax > bx {
        spec_edge_uvw(b, y)
    } else {
        spec_edge_uvw(a, y)
    };
    let e = if ax > bx {
        spec_edge_uvw(a, y)
    } else {
        spec_edge_uvw(b, y)
    };
    spec_draw_span(
        m,
        width,
        height,
        texture,
        y,
        lo,
        hi,
        R::spec_zero(),
        R::spec_one().spec_over(R::spec_from_i32((hi - lo) as i32)),
        s,
        e,
    )
}

/// The frame after the rows `y` to `y_to`, both included, between the edges
/// `a` and `b` have been drawn from top to bottom.
pub open spec fn spec_fill_band<R: Scalar>(
    m: FrameModel<R>,
    width: int,
    height: int,
    texture: Texture,
    y: int,
    y_to: int,
    a: Edge<R>,
    b: Edge<R>,
) -> FrameModel<R>
    decreases y_to - y + 1,
{
    if y > y_to {
        m
    } else {
        spec_fill_band(
            spec_draw_scanline(m, width, height, texture, y, a, b),
            width,
            height,
            texture,
            y + 1,
            y_to,
            a,
            b,
        )
    }
}

/// The frame after the triangle with the vertices `v` has been drawn: the
/// band above the middle vertex, then the band below it. A band without
/// height is left out.
pub open spec fn spec_texture_triangle<R: Scalar>(
    m: FrameModel<R>,
    width: int,
    height: int,
    texture: Texture,
    v: [ScreenVertex<R>; 3],
) -> FrameModel<R> {
    let s = spec_sort_by_y(v);
    let long_edge = spec_edge(s[0], s[2]);
    let upper = if s[1].y != s[0].y {
        spec_fill_band(
            m,
            width,
            height,
            texture,
            s[0].y as int,
            s[1].y as int,
            spec_edge(s[0], s[1]),
            long_edge,
        )
    } else {
        m
    };
    if s[2].y != s[1].y {
        spec_fill_band(
            upper,
            width,
            height,
            texture,
            s[1].y as int,
            s[2].y as int,
            spec_edge(s[1], s[2]),
            long_edge,
        )
    } else {
        upper
    }
}

/// Sorts the vertices by ascending row. A vertex moves as a whole, so its
/// texture coordinate stays with it.
pub fn sort_by_y<R: Scalar>(v: [ScreenVertex<R>; 3]) -> (s: [ScreenVertex<R>; 3])
    ensures
        s == spec_sort_by_y(v),
        s[0].y <= s[1].y <= s[2].y,
{
    let mut v1 = v[0];
    let mut v2 = v[1];
    let mut v3 = v[2];
    if v2.y < v1.y {
        let tmp = v1;
        v1 = v2;
        v2 = tmp;
    }
    if v3.y < v1.y {
        let tmp = v1;
        v1 = v3;
        v3 = tmp;
    }
    if v3.y < v2.y {
        let tmp = v2;
        v2 = v3;
        v3 = tmp;
    }
    [v1, v2, v3]
}

/// The edge from `from` down to `to`.
pub fn edge<R: Scalar>(from: &ScreenVertex<R>, to: &ScreenVertex<R>) -> (e: Edge<R>)
    ensures
        e == spec_edge(*from, *to),
{
    let dy: i32 = to.y as i32 - from.y as i32;
    let dx: i32 = to.x as i32 - from.x as i32;
    if dy != 0 {
        let rows = R::from_i32(
            if dy < 0 {
                -dy
            } else {
                dy
            },
        );
        Edge {
            x: from.x,
            y: from.y,
            uvw: from.uvw,
            x_step: R::from_i32(dx).over(rows),
            uvw_step: VecUVW {
                u: to.uvw.u.minus(from.uvw.u).over(rows),
                v: to.uvw.v.minus(from.uvw.v).over(rows),
                w: to.uvw.w.minus(from.uvw.w).over(rows),
            },
        }
    } else {
        Edge { x: from.x, y: from.y, uvw: from.uvw, x_step: R::zero(), uvw_step: VecUVW::zero_vec() }
    }
}

fn edge_x<R: Scalar>(e: &Edge<R>, y: i32) -> (x: i32)
    requires
        i16::MIN <= y <= i16::MAX,
    ensures
        x == spec_edge_x(*e, y as int),
        x - e.x >= i16::MIN,
        x - e.x <= i16::MAX,
{
    let offset: i32 = R::from_i32(y - e.y as i32).times(e.x_step).trunc_i32();
    let offset: i32 = if offset < i16::MIN as i32 {
        i16::MIN as i32
    } else if offset > i16::MAX as i32 {
        i16::MAX as i32
    } else {
        offset
    };
    e.x as i32 + offset
}

fn edge_uvw<R: Scalar>(e: &Edge<R>, y: i32) -> (r: VecUVW<R>)
    requires
        i16::MIN <= y <= i16::MAX,
    ensures
        r == spec_edge_uvw(*e, y as int),
{
    let rows = R::from_i32(y - e.y as i32);
    VecUVW {
        u: e.uvw.u.plus(rows.times(e.uvw_step.u)),
        v: e.uvw.v.plus(rows.times(e.uvw_step.v)),
        w: e.uvw.w.plus(rows.times(e.uvw_step.w)),
    }
}

fn blend<R: Scalar>(s: &VecUVW<R>, e: &VecUVW<R>, t: R) -> (r: VecUVW<R>)
    ensures
        r == spec_blend(*s, *e, t),
{
    VecUVW {
        u: R::one().minus(t).times(s.u).plus(t.times(e.u)),
        v: R::one().minus(t).times(s.v).plus(t.times(e.v)),
        w: R::one().minus(t).times(s.w).plus(t.times(e.w)),
    }
}

fn draw_span<R: Scalar>(
    frame: &mut Frame<R>,
    texture: &Texture,
    y: i32,
    ax: i32,
    bx: i32,
    t_step: R,
    s: &VecUVW<R>,
    e: &VecUVW<R>,
)
    requires
        old(frame).wf(),
        texture.wf(),
    ensures
        final(frame).wf(),
        final(frame).width == old(frame).width,
        final(frame).height == old(frame).height,
        final(frame)@ == spec_draw_span(
            old(frame)@,
            old(frame).width as int,
            old(frame).height as int,
            *texture,
            y as int,
            ax as int,
            bx as int,
            R::spec_zero(),
            t_step,
            *s,
            *e,
        ),
{
    let mut t = R::zero();
    let mut x: i32 = ax;
    while x < bx
        invariant
            frame.wf(),
            texture.wf(),
            frame.width == old(frame).width,
            frame.height == old(frame).height,
            spec_draw_span(
                frame@,
                frame.width as int,
                frame.height as int,
                *texture,
                y as int,
                x as int,
                bx as int,
                t,
                t_step,
                *s,
                *e,
            ) == spec_draw_span(
                old(frame)@,
                old(frame).width as int,
                old(frame).height as int,
                *texture,
                y as int,
                ax as int,
                bx as int,
                R::spec_zero(),
                t_step,
                *s,
                *e,
            ),
        decreases bx - x,
    {
        let f = blend(s, e, t);
        frame.plot(x, y, f.u, f.v, f.w, texture);
        t = t.plus(t_step);
        x += 1;
    }
}

fn draw_scanline<R: Scalar>(
    frame: &mut Frame<R>,
    texture: &Texture,
    y: i32,
    a: &Edge<R>,
    b: &Edge<R>,
)
    requires
        old(frame).wf(),
        texture.wf(),
        i16::MIN <= y <= i16::MAX,
    ensures
        final(frame).wf(),
        final(frame).width == old(frame).width,
        final(frame).height == old(frame).height,
        final(frame)@ == spec_draw_scanline(
            old(frame)@,
            old(frame).width as int,
            old(frame).height as int,
            *texture,
            y as int,
            *a,
            *b,
        ),
{
    let mut ax = edge_x(a, y);
    let mut bx = edge_x(b, y);
    let mut tex_s = edge_uvw(a, y);
    let mut tex_e = edge_uvw(b, y);
    if ax > bx {
        let tmp = ax;
        ax = bx;
        bx = tmp;
        let tmp = tex_s;
        tex_s = tex_e;
        tex_e = tmp;
    }
    let t_step = R::one().over(R::from_i32(bx - ax));
    draw_span(frame, texture, y, ax, bx, t_step, &tex_s, &tex_e);
}

fn fill_band<R: Scalar>(
    frame: &mut Frame<R>,
    texture: &Texture,
    y_from: i16,
    y_to: i16,
    a: &Edge<R>,
    b: &Edge<R>,
)
    requires
        old(frame).wf(),
        texture.wf(),
    ensures
        final(frame).wf(),
        final(frame).width == old(frame).width,
        final(frame).height == old(frame).height,
        final(frame)@ == spec_fill_band(
            old(frame)@,
            old(frame).width as int,
            old(frame).height as int,
            *texture,
            y_from as int,
            y_to as int,
            *a,
            *b,
        ),
{
    let mut y: i32 = y_from as i32;
    while y <= y_to as i32
        invariant
            frame.wf(),
            texture.wf(),
            frame.width == old(frame).width,
            frame.height == old(frame).height,
            y_from <= y <= i16::MAX + 1,
            spec_fill_band(
                frame@,
                frame.width as int,
                frame.height as int,
                *texture,
                y as int,
                y_to as int,
                *a,
                *b,
            ) == spec_fill_band(
                old(frame)@,
                old(frame).width as int,
                old(frame).height as int,
                *texture,
                y_from as int,
                y_to as int,
                *a,
                *b,
            ),
        decreases y_to - y + 1,
    {
        draw_scanline(frame, texture, y, a, b);
        y += 1;
    }
}

/// Draws the textured triangle with the screen vertices `v` into the frame,
/// with perspective-correct texture mapping and depth testing.
pub fn texture_triangle<R: Scalar>(
    frame: &mut Frame<R>,
    v: [ScreenVertex<R>; 3],
    texture: &Texture,
)
    requires
        old(frame).wf(),
        texture.wf(),
    ensures
        final(frame).wf(),
        final(frame).width == old(frame).width,
        final(frame).height == old(frame).height,
        final(frame)@ == spec_texture_triangle(
            old(frame)@,
            old(frame).width as int,
            old(frame).height as int,
            *texture,
            v,
        ),
{
    let s = sort_by_y(v);
    let long_edge = edge(&s[0], &s[2]);
    if s[1].y != s[0].y {
        let short_edge = edge(&s[0], &s[1]);
        fill_band(frame, texture, s[0].y, s[1].y, &short_edge, &long_edge);
    }
    if s[2].y != s[1].y {
        let short_edge = edge(&s[1], &s[2]);
        fill_band(frame, texture, s[1].y, s[2].y, &short_edge, &long_edge);
    }
}

/// The screen position that a coordinate is drawn at: the nearest whole
/// number, brought into the range of `i16` and then into `[0, limit]`.
pub open spec fn spec_snap<R: Scalar>(c: R, limit: u16) -> i16 {
    spec_clamp(
        spec_clamp(c.spec_round_i32() as int, i16::MIN as int, i16::MAX as int),
        0,
        limit as int,
    ) as i16
}

/// The screen vertices of a projected triangle in a frame of `width` by
/// `height` pixels.
pub open spec fn spec_screen_vertices<R: Scalar>(
    triangle: Triangle<R>,
    width: u16,
    height: u16,
) -> [ScreenVertex<R>; 3] {
    [
        ScreenVertex {
            x: spec_snap(triangle.vertices[0].x, width),
            y: spec_snap(triangle.vertices[0].y, height),
            uvw: triangle.uvs[0],
        },
        ScreenVertex {
            x: spec_snap(triangle.vertices[1].x, width),
            y: spec_snap(triangle.vertices[1].y, height),
            uvw: triangle.uvs[1],
        },
        ScreenVertex {
            x: spec_snap(triangle.vertices[2].x, width),
            y: spec_snap(triangle.vertices[2].y, height),
            uvw: triangle.uvs[2],
        },
    ]
}

fn snap<R: Scalar>(c: R, limit: u16) -> (r: i16)
    requires
        limit <= i16::MAX,
    ensures
        r == spec_snap(c, limit),
        0 <= r <= limit,
{
    let rounded: i32 = c.round_i32();
    if rounded < 0 {
        0
    } else if rounded > limit as i32 {
        limit as i16
    } else {
        rounded as i16
    }
}

/// Draws a projected triangle: its vertices are rounded to whole pixels and
/// brought into the frame, then the triangle is scan converted.
pub fn texture_triangle_safe<R: Scalar>(
    frame: &mut Frame<R>,
    triangle: &Triangle<R>,
    texture: &Texture,
)
    requires
        old(frame).wf(),
        texture.wf(),
    ensures
        final(frame).wf(),
        final(frame).width == old(frame).width,
        final(frame).height == old(frame).height,
        final(frame)@ == spec_texture_triangle(
            old(frame)@,
            old(frame).width as int,
            old(frame).height as int,
            *texture,
            spec_screen_vertices(*triangle, old(frame).width, old(frame).height),
        ),
{
    let v = [
        ScreenVertex {
            x: snap(triangle.vertices[0].x, frame.width),
            y: snap(triangle.vertices[0].y, frame.height),
            uvw: triangle.uvs[0],
        },
        ScreenVertex {
            x: snap(triangle.vertices[1].x, frame.width),
            y: snap(triangle.vertices[1].y, frame.height),
            uvw: triangle.uvs[1],
        },
        ScreenVertex {
            x: snap(triangle.vertices[2].x, frame.width),
            y: snap(triangle.vertices[2].y, frame.height),
            uvw: triangle.uvs[2],
        },
    ];
    texture_triangle(frame, v, texture);
}

} // verus!
