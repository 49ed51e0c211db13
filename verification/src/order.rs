//! The drawing order does not matter to the depth test.
//!
//! Scan conversion turns a triangle into fragments, and what a triangle
//! sends to a pixel does not depend on what the frame holds. So drawing two
//! triangles one after the other is applying two lists of fragments, and the
//! two lists can change places wherever no fragment of the one ties with a
//! fragment of the other on the same pixel.

use crate::frame::{lemma_depth_order_independent, spec_fragment, FrameModel};
use crate::raster::{
    spec_blend, spec_draw_scanline, spec_draw_span, spec_edge, spec_edge_uvw, spec_edge_x,
    spec_fill_band, spec_sort_by_y, spec_texture_triangle, Edge, ScreenVertex,
};
use crate::scalar::{spec_strict_order, Scalar};
use crate::texture::Texture;
use crate::vector::VecUVW;
use vstd::prelude::*;

verus! {

/// What scan conversion sends to one pixel: the premultiplied texture
/// coordinate and the depth weight.
pub struct Fragment<R: Scalar> {
    pub x: int,
    pub y: int,
    pub u: R,
    pub v: R,
    pub w: R,
}

/// The frame after the fragment `f` of a triangle with the texture
/// `texture` has gone through the depth test.
pub open spec fn spec_apply<R: Scalar>(
    m: FrameModel<R>,
    width: int,
    height: int,
    texture: Texture,
    f: Fragment<R>,
) -> FrameModel<R> {
    spec_fragment(m, width, height, f.x, f.y, f.u, f.v, f.w, texture)
}

/// The frame after the fragments `fs` have gone through the depth test in
/// order.
pub open spec fn spec_apply_all<R: Scalar>(
    m: FrameModel<R>,
    width: int,
    height: int,
    texture: Texture,
    fs: Seq<Fragment<R>>,
) -> FrameModel<R>
    decreases fs.len(),
{
    if fs.len() == 0 {
        m
    } else {
        spec_apply_all(
            spec_apply(m, width, height, texture, fs[0]),
            width,
            height,
            texture,
            fs.drop_first(),
        )
    }
}

/// The fragments of the columns `x` up to, not including, `bx` of row `y`.
pub open spec fn spec_span_fragments<R: Scalar>(
    y: int,
    x: int,
    bx: int,
    t: R,
    t_step: R,
    s: VecUVW<R>,
    e: VecUVW<R>,
) -> Seq<Fragment<R>>
    decreases bx - x,
{
    if x >= bx {
        Seq::empty()
    } else {
        let f = spec_blend(s, e, t);
        seq![Fragment { x, y, u: f.u, v: f.v, w: f.w }] + spec_span_fragments(
            y,
            x + 1,
            bx,
            t.spec_plus(t_step),
            t_step,
            s,
            e,
        )
    }
}

/// The fragments of row `y` between the edges `a` and `b`.
pub open spec fn spec_scanline_fragments<R: Scalar>(y: int, a: Edge<R>, b: Edge<R>) -> Seq<
    Fragment<R>,
> {
    let ax = spec_edge_x(a, y);
    let bx = spec_edge_x(b, y);
    let lo = if ax > bx {
        bx
    } else {
        ax
    };
    let hi = if ax > bx {
        ax
    } else {
        bx
    };
    let s = if ax > bx {
        spec_edge_uvw(b, y)
    } else {
        spec_edge_uvw(a, y)
    };
    let e = if ax > bx {
        spec_edge_uvw(a, y)
    } else {
        spec_edge_uvw(b, y)
    };
    spec_span_fragments(
        y,
        lo,
        hi,
        R::spec_zero(),
        R::spec_one().spec_over(R::spec_from_i32((hi - lo) as i32)),
        s,
        e,
    )
}

/// The fragments of the rows `y` to `y_to` between the edges `a` and `b`.
pub open spec fn spec_band_fragments<R: Scalar>(y: int, y_to: int, a: Edge<R>, b: Edge<R>) -> Seq<
    Fragment<R>,
>
    decreases y_to - y + 1,
{
    if y > y_to {
        Seq::empty()
    } else {
        spec_scanline_fragments(y, a, b) + spec_band_fragments(y + 1, y_to, a, b)
    }
}

/// The fragments of the triangle with the vertices `v`, in drawing order.
pub open spec fn spec_triangle_fragments<R: Scalar>(v: [ScreenVertex<R>; 3]) -> Seq<Fragment<R>> {
    let s = spec_sort_by_y(v);
    let long_edge = spec_edge(s[0], s[2]);
    let upper = if s[1].y != s[0].y {
        spec_band_fragments(s[0].y as int, s[1].y as int, spec_edge(s[0], s[1]), long_edge)
    } else {
        Seq::empty()
    };
    let lower = if s[2].y != s[1].y {
        spec_band_fragments(s[1].y as int, s[2].y as int, spec_edge(s[1], s[2]), long_edge)
    } else {
        Seq::empty()
    };
    upper + lower
}

/// Applying two lists one after the other is applying them joined.
pub proof fn lemma_apply_joined<R: Scalar>(
    m: FrameModel<R>,
    width: int,
    height: int,
    texture: Texture,
    a: Seq<Fragment<R>>,
    b: Seq<Fragment<R>>,
)
    ensures
        spec_apply_all(m, width, height, texture, a + b) == spec_apply_all(
            spec_apply_all(m, width, height, texture, a),
            width,
            height,
            texture,
            b,
        ),
    decreases a.len(),
{
    if a.len() == 0 {
        assert(a + b =~= b);
    } else {
        assert((a + b).drop_first() =~= a.drop_first() + b);
        lemma_apply_joined(
            spec_apply(m, width, height, texture, a[0]),
            width,
            height,
            texture,
            a.drop_first(),
            b,
        );
    }
}

/// Drawing a span is applying its fragments.
pub proof fn lemma_span_is_fragments<R: Scalar>(
    m: FrameModel<R>,
    width: int,
    height: int,
    texture: Texture,
    y: int,
    x: int,
    bx: int,
    t: R,
    t_step: R,
    s: VecUVW<R>,
    e: VecUVW<R>,
)
    ensures
        spec_draw_span(m, width, height, texture, y, x, bx, t, t_step, s, e) == spec_apply_all(
            m,
            width,
            height,
            texture,
            spec_span_fragments(y, x, bx, t, t_step, s, e),
        ),
    decreases bx - x,
{
    if x < bx {
        let f = spec_blend(s, e, t);
        let first = Fragment { x, y, u: f.u, v: f.v, w: f.w };
        let rest = spec_span_fragments(y, x + 1, bx, t.spec_plus(t_step), t_step, s, e);
        let all = spec_span_fragments(y, x, bx, t, t_step, s, e);
        assert(all == seq![first] + rest);
        assert(all[0] == first);
        assert(all.drop_first() =~= rest);
        lemma_span_is_fragments(
            spec_fragment(m, width, height, x, y, f.u, f.v, f.w, texture),
            width,
            height,
            texture,
            y,
            x + 1,
            bx,
            t.spec_plus(t_step),
            t_step,
            s,
            e,
        );
    }
}

/// Drawing a band is applying its fragments.
pub proof fn lemma_band_is_fragments<R: Scalar>(
    m: FrameModel<R>,
    width: int,
    height: int,
    texture: Texture,
    y: int,
    y_to: int,
    a: Edge<R>,
    b: Edge<R>,
)
    ensures
        spec_fill_band(m, width, height, texture, y, y_to, a, b) == spec_apply_all(
            m,
            width,
            height,
            texture,
            spec_band_fragments(y, y_to, a, b),
        ),
    decreases y_to - y + 1,
{
    if y <= y_to {
        let ax = spec_edge_x(a, y);
        let bx = spec_edge_x(b, y);
        let lo = if ax > bx {
            bx
        } else {
            ax
        };
        let hi = if ax > bx {
            ax
        } else {
            bx
        };
        let s = if ax > bx {
            spec_edge_uvw(b, y)
        } else {
            spec_edge_uvw(a, y)
        };
        let e = if ax > bx {
            spec_edge_uvw(a, y)
        } else {
            spec_edge_uvw(b, y)
        };
        lemma_span_is_fragments(
            m,
            width,
            height,
            texture,
            y,
            lo,
            hi,
            R::spec_zero(),
            R::spec_one().spec_over(R::spec_from_i32((hi - lo) as i32)),
            s,
            e,
        );
        let line = spec_draw_scanline(m, width, height, texture, y, a, b);
        lemma_band_is_fragments(line, width, height, texture, y + 1, y_to, a, b);
        lemma_apply_joined(
            m,
            width,
            height,
            texture,
            spec_scanline_fragments(y, a, b),
            spec_band_fragments(y + 1, y_to, a, b),
        );
    }
}

/// Drawing a triangle is applying its fragments: what a triangle sends to
/// the depth test does not depend on what the frame holds.
pub proof fn lemma_triangle_is_fragments<R: Scalar>(
    m: FrameModel<R>,
    width: int,
    height: int,
    texture: Texture,
    v: [ScreenVertex<R>; 3],
)
    ensures
        spec_texture_triangle(m, width, height, texture, v) == spec_apply_all(
            m,
            width,
            height,
            texture,
            spec_triangle_fragments(v),
        ),
{
    let s = spec_sort_by_y(v);
    let long_edge = spec_edge(s[0], s[2]);
    let upper = if s[1].y != s[0].y {
        spec_band_fragments(s[0].y as int, s[1].y as int, spec_edge(s[0], s[1]), long_edge)
    } else {
        Seq::empty()
    };
    let lower = if s[2].y != s[1].y {
        spec_band_fragments(s[1].y as int, s[2].y as int, spec_edge(s[1], s[2]), long_edge)
    } else {
        Seq::empty()
    };
    let m1 = if s[1].y != s[0].y {
        spec_fill_band(
            m,
            width,
            height,
            texture,
            s[0].y as int,
            s[1].y as int,
            spec_edge(s[0], s[1]),
            long_edge,
        )
    } else {
        m
    };
    if s[1].y != s[0].y {
        lemma_band_is_fragments(
            m,
            width,
            height,
            texture,
            s[0].y as int,
            s[1].y as int,
            spec_edge(s[0], s[1]),
            long_edge,
        );
    }
    if s[2].y != s[1].y {
        lemma_band_is_fragments(
            m1,
            width,
            height,
            texture,
            s[1].y as int,
            s[2].y as int,
            spec_edge(s[1], s[2]),
            long_edge,
        );
    }
    lemma_apply_joined(m, width, height, texture, upper, lower);
}

/// Whether two fragments do not tie: they fall on different pixels, or one
/// of them has the greater depth weight.
pub open spec fn spec_no_tie<R: Scalar>(f: Fragment<R>, g: Fragment<R>) -> bool {
    f.x != g.x || f.y != g.y || f.w.spec_gt(g.w) || g.w.spec_gt(f.w)
}

/// Whether a frame model has the sizes of a frame of `width` by `height`
/// pixels.
pub open spec fn spec_sized<R: Scalar>(m: FrameModel<R>, width: int, height: int) -> bool {
    &&& 0 <= width
    &&& 0 <= height
    &&& m.image.len() == 4 * (width * height)
    &&& m.inv_depth.len() == width * height
}

proof fn lemma_apply_keeps_size<R: Scalar>(
    m: FrameModel<R>,
    width: int,
    height: int,
    texture: Texture,
    f: Fragment<R>,
)
    requires
        spec_sized(m, width, height),
    ensures
        spec_sized(spec_apply(m, width, height, texture, f), width, height),
{
    if 0 <= f.x < width && 0 <= f.y < height {
        assert(0 <= f.y * width + f.x < width * height) by (nonlinear_arith)
            requires
                0 <= f.x < width,
                0 <= f.y < height,
        ;
    }
}

proof fn lemma_apply_all_keeps_size<R: Scalar>(
    m: FrameModel<R>,
    width: int,
    height: int,
    texture: Texture,
    fs: Seq<Fragment<R>>,
)
    requires
        spec_sized(m, width, height),
    ensures
        spec_sized(spec_apply_all(m, width, height, texture, fs), width, height),
    decreases fs.len(),
{
    if fs.len() > 0 {
        lemma_apply_keeps_size(m, width, height, texture, fs[0]);
        lemma_apply_all_keeps_size(
            spec_apply(m, width, height, texture, fs[0]),
            width,
            height,
            texture,
            fs.drop_first(),
        );
    }
}

/// Two fragments that do not tie can change places.
pub proof fn lemma_fragments_commute<R: Scalar>(
    m: FrameModel<R>,
    width: int,
    height: int,
    f_texture: Texture,
    f: Fragment<R>,
    g_texture: Texture,
    g: Fragment<R>,
)
    requires
        spec_strict_order::<R>(),
        spec_sized(m, width, height),
        spec_no_tie(f, g),
    ensures
        spec_apply(spec_apply(m, width, height, f_texture, f), width, height, g_texture, g)
            == spec_apply(spec_apply(m, width, height, g_texture, g), width, height, f_texture, f),
{
    let f_in = 0 <= f.x < width && 0 <= f.y < height;
    let g_in = 0 <= g.x < width && 0 <= g.y < height;
    if f_in && g_in {
        if f.x == g.x && f.y == g.y {
            if f.w.spec_gt(g.w) {
                lemma_depth_order_independent(
                    m,
                    width,
                    height,
                    f.x,
                    f.y,
                    (f.u, f.v, f.w),
                    f_texture,
                    (g.u, g.v, g.w),
                    g_texture,
                );
            } else {
                lemma_depth_order_independent(
                    m,
                    width,
                    height,
                    f.x,
                    f.y,
                    (g.u, g.v, g.w),
                    g_texture,
                    (f.u, f.v, f.w),
                    f_texture,
                );
            }
        } else {
            let pf = f.y * width + f.x;
            let pg = g.y * width + g.x;
            assert(0 <= pf < width * height && 0 <= pg < width * height && pf != pg)
                by (nonlinear_arith)
                requires
                    0 <= f.x < width,
                    0 <= f.y < height,
                    0 <= g.x < width,
                    0 <= g.y < height,
                    f.x != g.x || f.y != g.y,
                    pf == f.y * width + f.x,
                    pg == g.y * width + g.x,
            ;
            let fg = spec_apply(
                spec_apply(m, width, height, f_texture, f),
                width,
                height,
                g_texture,
                g,
            );
            let gf = spec_apply(
                spec_apply(m, width, height, g_texture, g),
                width,
                height,
                f_texture,
                f,
            );
            assert(fg.image =~= gf.image);
            assert(fg.inv_depth =~= gf.inv_depth);
        }
    }
}

/// A fragment can change places with a list of fragments none of which
/// ties with it.
proof fn lemma_fragment_past_list<R: Scalar>(
    m: FrameModel<R>,
    width: int,
    height: int,
    f_texture: Texture,
    f: Fragment<R>,
    g_texture: Texture,
    gs: Seq<Fragment<R>>,
)
    requires
        spec_strict_order::<R>(),
        spec_sized(m, width, height),
        forall|j: int| 0 <= j < gs.len() ==> spec_no_tie(f, #[trigger] gs[j]),
    ensures
        spec_apply_all(spec_apply(m, width, height, f_texture, f), width, height, g_texture, gs)
            == spec_apply(
            spec_apply_all(m, width, height, g_texture, gs),
            width,
            height,
            f_texture,
            f,
        ),
    decreases gs.len(),
{
    if gs.len() > 0 {
        let g = gs[0];
        let rest = gs.drop_first();
        assert(spec_no_tie(f, g));
        lemma_fragments_commute(m, width, height, f_texture, f, g_texture, g);
        lemma_apply_keeps_size(m, width, height, g_texture, g);
        assert forall|j: int| 0 <= j < rest.len() implies spec_no_tie(f, #[trigger] rest[j]) by {
            assert(rest[j] == gs[j + 1]);
        }
        lemma_fragment_past_list(
            spec_apply(m, width, height, g_texture, g),
            width,
            height,
            f_texture,
            f,
            g_texture,
            rest,
        );
    }
}

/// Two lists of fragments can change places where no fragment of the one
/// ties with a fragment of the other.
pub proof fn lemma_lists_commute<R: Scalar>(
    m: FrameModel<R>,
    width: int,
    height: int,
    f_texture: Texture,
    fs: Seq<Fragment<R>>,
    g_texture: Texture,
    gs: Seq<Fragment<R>>,
)
    requires
        spec_strict_order::<R>(),
        spec_sized(m, width, height),
        forall|i: int, j: int|
            0 <= i < fs.len() && 0 <= j < gs.len() ==> spec_no_tie(#[trigger] fs[i], #[trigger] gs[j]),
    ensures
        spec_apply_all(
            spec_apply_all(m, width, height, f_texture, fs),
            width,
            height,
            g_texture,
            gs,
        ) == spec_apply_all(
            spec_apply_all(m, width, height, g_texture, gs),
            width,
            height,
            f_texture,
            fs,
        ),
    decreases fs.len(),
{
    if fs.len() > 0 {
        let f = fs[0];
        let rest = fs.drop_first();
        let m1 = spec_apply(m, width, height, f_texture, f);
        lemma_apply_keeps_size(m, width, height, f_texture, f);
        assert forall|i: int, j: int| 0 <= i < rest.len() && 0 <= j < gs.len() implies spec_no_tie(
            #[trigger] rest[i],
            #[trigger] gs[j],
        ) by {
            assert(rest[i] == fs[i + 1]);
        }
        // the rest of the first list past the second, from the frame after `f`
        lemma_lists_commute(m1, width, height, f_texture, rest, g_texture, gs);
        // `f` itself past the second list
        assert forall|j: int| 0 <= j < gs.len() implies spec_no_tie(f, #[trigger] gs[j]) by {
            assert(spec_no_tie(fs[0], gs[j]));
        }
        lemma_fragment_past_list(m, width, height, f_texture, f, g_texture, gs);
    }
}

/// Depth testing makes the drawing order of two triangles irrelevant:
/// where no fragment of the one ties with a fragment of the other on the
/// same pixel, drawing them in either order gives the same frame.
pub proof fn lemma_triangles_order_independent<R: Scalar>(
    m: FrameModel<R>,
    width: int,
    height: int,
    first_texture: Texture,
    first: [ScreenVertex<R>; 3],
    second_texture: Texture,
    second: [ScreenVertex<R>; 3],
)
    requires
        spec_strict_order::<R>(),
        spec_sized(m, width, height),
        forall|i: int, j: int|
            0 <= i < spec_triangle_fragments(first).len() && 0 <= j < spec_triangle_fragments(
                second,
            ).len() ==> spec_no_tie(
                #[trigger] spec_triangle_fragments(first)[i],
                #[trigger] spec_triangle_fragments(second)[j],
            ),
    ensures
        spec_texture_triangle(
            spec_texture_triangle(m, width, height, first_texture, first),
            width,
            height,
            second_texture,
            second,
        ) == spec_texture_triangle(
            spec_texture_triangle(m, width, height, second_texture, second),
            width,
            height,
            first_texture,
            first,
        ),
{
    let fs = spec_triangle_fragments(first);
    let gs = spec_triangle_fragments(second);
    lemma_triangle_is_fragments(m, width, height, first_texture, first);
    lemma_triangle_is_fragments(m, width, height, second_texture, second);
    lemma_triangle_is_fragments(
        spec_texture_triangle(m, width, height, first_texture, first),
        width,
        height,
        second_texture,
        second,
    );
    lemma_triangle_is_fragments(
        spec_texture_triangle(m, width, height, second_texture, second),
        width,
        height,
        first_texture,
        first,
    );
    lemma_lists_commute(m, width, height, first_texture, fs, second_texture, gs);
}

/// Whether the depth weight `a` is `b` or greater than `b`.
pub open spec fn spec_at_least<R: Scalar>(a: R, b: R) -> bool {
    a == b || a.spec_gt(b)
}

/// Whether every depth weight of `after` is at least the weight of `before`
/// in the same place.
pub open spec fn spec_not_farther<R: Scalar>(before: FrameModel<R>, after: FrameModel<R>) -> bool {
    &&& after.inv_depth.len() == before.inv_depth.len()
    &&& forall|q: int|
        0 <= q < before.inv_depth.len() ==> spec_at_least(
            #[trigger] after.inv_depth[q],
            before.inv_depth[q],
        )
}

/// A list of fragments only ever brings pixels nearer.
pub proof fn lemma_fragments_bring_nearer<R: Scalar>(
    m: FrameModel<R>,
    width: int,
    height: int,
    texture: Texture,
    fs: Seq<Fragment<R>>,
)
    requires
        spec_strict_order::<R>(),
        spec_sized(m, width, height),
    ensures
        spec_not_farther(m, spec_apply_all(m, width, height, texture, fs)),
    decreases fs.len(),
{
    if fs.len() > 0 {
        let f = fs[0];
        let m1 = spec_apply(m, width, height, texture, f);
        lemma_apply_keeps_size(m, width, height, texture, f);
        lemma_fragments_bring_nearer(m1, width, height, texture, fs.drop_first());
        let last = spec_apply_all(m, width, height, texture, fs);
        assert forall|q: int| 0 <= q < m.inv_depth.len() implies spec_at_least(
            #[trigger] last.inv_depth[q],
            m.inv_depth[q],
        ) by {
            assert(spec_at_least(last.inv_depth[q], m1.inv_depth[q]));
            assert(spec_at_least(m1.inv_depth[q], m.inv_depth[q])) by {
                if 0 <= f.x < width && 0 <= f.y < height {
                    assert(0 <= f.y * width + f.x < width * height) by (nonlinear_arith)
                        requires
                            0 <= f.x < width,
                            0 <= f.y < height,
                    ;
                }
            }
        }
    }
}

/// The depth buffer holds the largest weight seen: after a list of
/// fragments has been drawn, no fragment of the list has a weight greater
/// than what its pixel holds.
pub proof fn lemma_depth_holds_largest<R: Scalar>(
    m: FrameModel<R>,
    width: int,
    height: int,
    texture: Texture,
    fs: Seq<Fragment<R>>,
    i: int,
)
    requires
        spec_strict_order::<R>(),
        spec_sized(m, width, height),
        0 <= i < fs.len(),
        0 <= fs[i].x < width,
        0 <= fs[i].y < height,
    ensures
        !fs[i].w.spec_gt(
            spec_apply_all(m, width, height, texture, fs).inv_depth[fs[i].y * width + fs[i].x],
        ),
    decreases fs.len(),
{
    let f = fs[0];
    let m1 = spec_apply(m, width, height, texture, f);
    lemma_apply_keeps_size(m, width, height, texture, f);
    let rest = fs.drop_first();
    let last = spec_apply_all(m, width, height, texture, fs);
    if i == 0 {
        let pix = f.y * width + f.x;
        assert(0 <= pix < width * height) by (nonlinear_arith)
            requires
                0 <= f.x < width,
                0 <= f.y < height,
                pix == f.y * width + f.x,
        ;
        // after `f` the pixel holds `f.w` or a weight that `f.w` is not greater than
        assert(!f.w.spec_gt(m1.inv_depth[pix]));
        lemma_fragments_bring_nearer(m1, width, height, texture, rest);
        assert(spec_at_least(last.inv_depth[pix], m1.inv_depth[pix]));
    } else {
        assert(rest[i - 1] == fs[i]);
        lemma_depth_holds_largest(m1, width, height, texture, rest, i - 1);
    }
}

/// Sorting by row keeps every vertex whole and brings the rows in order:
/// the result holds the three vertices of the input, each once.
pub proof fn lemma_sort_keeps_vertices<R: Scalar>(v: [ScreenVertex<R>; 3])
    ensures
        ({
            let s = spec_sort_by_y(v);
            &&& s[0].y <= s[1].y <= s[2].y
            &&& exists|a: int, b: int, c: int|
                0 <= a < 3 && 0 <= b < 3 && 0 <= c < 3 && a != b && a != c && b != c && s[0]
                    == v[a] && s[1] == v[b] && s[2] == v[c]
        }),
{
    let s = spec_sort_by_y(v);
    let first: [ScreenVertex<R>; 3] = if v[1].y < v[0].y {
        [v[1], v[0], v[2]]
    } else {
        v
    };
    let second: [ScreenVertex<R>; 3] = if first[2].y < first[0].y {
        [first[2], first[1], first[0]]
    } else {
        first
    };
    let (a1, b1, c1): (int, int, int) = if v[1].y < v[0].y {
        (1, 0, 2)
    } else {
        (0, 1, 2)
    };
    assert(first[0] == v[a1] && first[1] == v[b1] && first[2] == v[c1]);
    let (a2, b2, c2): (int, int, int) = if first[2].y < first[0].y {
        (c1, b1, a1)
    } else {
        (a1, b1, c1)
    };
    assert(second[0] == v[a2] && second[1] == v[b2] && second[2] == v[c2]);
    let (a3, b3, c3): (int, int, int) = if second[2].y < second[1].y {
        (a2, c2, b2)
    } else {
        (a2, b2, c2)
    };
    assert(s[0] == v[a3] && s[1] == v[b3] && s[2] == v[c3]);
    assert(0 <= a3 < 3 && 0 <= b3 < 3 && 0 <= c3 < 3 && a3 != b3 && a3 != c3 && b3 != c3);
}

} // verus!
