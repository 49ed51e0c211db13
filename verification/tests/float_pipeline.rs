//! The pipeline on binary floating point: the scenarios that need real
//! fractions.

use soft_raster::clip::{intersect_vector_plane, triangle_clip_against_plane};
use soft_raster::frame::Frame;
use soft_raster::matrix::{projection_matrix, Matrix4x4};
use soft_raster::pipeline::{render_frame, visible_triangles, FrameSetup};
use soft_raster::raster::{texture_triangle, ScreenVertex};
use soft_raster::scalar::Scalar;
use soft_raster::texture::Texture;
use soft_raster::vector::{Triangle, Vec3d, VecUVW};

#[derive(Copy, Clone, Debug, PartialEq)]
struct F(f32);

impl Scalar for F {
    fn zero() -> F {
        F(0.0)
    }
    fn one() -> F {
        F(1.0)
    }
    fn plus(self, rhs: F) -> F {
        F(self.0 + rhs.0)
    }
    fn minus(self, rhs: F) -> F {
        F(self.0 - rhs.0)
    }
    fn times(self, rhs: F) -> F {
        F(self.0 * rhs.0)
    }
    fn over(self, rhs: F) -> F {
        F(self.0 / rhs.0)
    }
    fn negated(self) -> F {
        F(-self.0)
    }
    fn gt(self, rhs: F) -> bool {
        self.0 > rhs.0
    }
    fn ge(self, rhs: F) -> bool {
        self.0 >= rhs.0
    }
    fn same(self, rhs: F) -> bool {
        self.0 == rhs.0
    }
    fn from_i32(v: i32) -> F {
        F(v as f32)
    }
    fn from_bits(bits: u32) -> F {
        F(f32::from_bits(bits))
    }
    fn trunc_i32(self) -> i32 {
        self.0 as i32
    }
    fn round_i32(self) -> i32 {
        self.0.round() as i32
    }
    fn sqrt(self) -> F {
        F(self.0.sqrt())
    }
    fn to_bits(self) -> u32 {
        self.0.to_bits()
    }
}

fn p(x: f32, y: f32, z: f32) -> Vec3d<F> {
    Vec3d::xyz1(F(x), F(y), F(z))
}

fn uv(u: f32, v: f32) -> VecUVW<F> {
    VecUVW::uvw(F(u), F(v), F(1.0))
}

fn identity() -> Matrix4x4<F> {
    Matrix4x4::ones_cascade()
}

fn shoelace(t: &Triangle<F>) -> f32 {
    let a = t.vertices[0];
    let b = t.vertices[1];
    let c = t.vertices[2];
    // in the y-z plane, where the near plane cuts
    0.5 * ((a.y.0 * (b.z.0 - c.z.0)) + (b.y.0 * (c.z.0 - a.z.0)) + (c.y.0 * (a.z.0 - b.z.0))).abs()
}

fn checkerboard() -> Texture {
    Texture {
        pixels: vec![
            10, 0, 0, 255, //
            0, 20, 0, 255, //
            0, 0, 30, 255, //
            40, 40, 40, 255,
        ],
        resolution_u: 2,
        resolution_v: 2,
    }
}

fn pixel(frame: &Frame<F>, x: usize, y: usize) -> [u8; 4] {
    let i = 4 * (y * frame.width as usize + x);
    [frame.image[i], frame.image[i + 1], frame.image[i + 2], frame.image[i + 3]]
}

#[test]
fn triangle_inside_the_half_space_passes_through_bit_for_bit() {
    let tri = Triangle {
        vertices: [p(0.1, 0.2, 1.0), p(0.3, -0.7, 2.5), p(-4.0, 0.9, 0.011)],
        uvs: [uv(0.0, 0.0), uv(1.0, 0.25), uv(0.5, 1.0)],
    };
    let (count, out) = triangle_clip_against_plane(&p(0.0, 0.0, 0.01), &p(0.0, 0.0, 1.0), &tri);
    assert_eq!(count, 1);
    for i in 0..3 {
        assert_eq!(out[0].vertices[i].x.0.to_bits(), tri.vertices[i].x.0.to_bits());
        assert_eq!(out[0].vertices[i].y.0.to_bits(), tri.vertices[i].y.0.to_bits());
        assert_eq!(out[0].vertices[i].z.0.to_bits(), tri.vertices[i].z.0.to_bits());
        assert_eq!(out[0].vertices[i].w.0.to_bits(), tri.vertices[i].w.0.to_bits());
        assert_eq!(out[0].uvs[i].u.0.to_bits(), tri.uvs[i].u.0.to_bits());
        assert_eq!(out[0].uvs[i].v.0.to_bits(), tri.uvs[i].v.0.to_bits());
        assert_eq!(out[0].uvs[i].w.0.to_bits(), tri.uvs[i].w.0.to_bits());
    }
}

#[test]
fn triangle_outside_the_half_space_is_dropped() {
    let tri = Triangle {
        vertices: [p(0.0, 0.0, -1.0), p(1.0, 0.0, -2.0), p(0.0, 1.0, 0.0)],
        uvs: [uv(0.0, 0.0), uv(1.0, 0.0), uv(0.0, 1.0)],
    };
    let (count, _) = triangle_clip_against_plane(&p(0.0, 0.0, 0.5), &p(0.0, 0.0, 1.0), &tri);
    assert_eq!(count, 0);
}

#[test]
fn vertex_on_the_plane_counts_as_inside() {
    let tri = Triangle {
        vertices: [p(0.0, 0.0, 0.5), p(1.0, 0.0, 0.5), p(0.0, 1.0, 0.5)],
        uvs: [uv(0.0, 0.0), uv(1.0, 0.0), uv(0.0, 1.0)],
    };
    let (count, _) = triangle_clip_against_plane(&p(0.0, 0.0, 0.5), &p(0.0, 0.0, 1.0), &tri);
    assert_eq!(count, 1);
}

#[test]
fn near_plane_cuts_a_straddling_triangle_into_a_quad_of_the_inside_area() {
    // In the y-z plane: (0,-1), (0,3) outside... two vertices at z = 3, one at z = -1.
    let tri = Triangle {
        vertices: [p(0.0, 0.0, -1.0), p(0.0, 2.0, 3.0), p(0.0, -2.0, 3.0)],
        uvs: [uv(0.5, 0.0), uv(1.0, 1.0), uv(0.0, 1.0)],
    };
    let near = 1.0;
    let (count, out) = triangle_clip_against_plane(&p(0.0, 0.0, near), &p(0.0, 0.0, 1.0), &tri);
    assert_eq!(count, 2);
    // The whole triangle has base 4 and height 4: area 8. The part in front
    // of z = 1 is a similar triangle of height 2 and base 2: area 2.
    let whole = shoelace(&tri);
    assert!((whole - 8.0).abs() < 1e-5);
    let inside = shoelace(&out[0]) + shoelace(&out[1]);
    assert!((inside - 6.0).abs() < 1e-4, "inside area {}", inside);
    for k in 0..2 {
        for i in 0..3 {
            assert!(out[k].vertices[i].z.0 >= near - 1e-5);
        }
    }
    // the second triangle shares the first cut point exactly
    assert_eq!(out[1].vertices[1].y.0.to_bits(), out[0].vertices[2].y.0.to_bits());
    assert_eq!(out[1].vertices[1].z.0.to_bits(), out[0].vertices[2].z.0.to_bits());
    assert_eq!(out[1].uvs[1].u.0.to_bits(), out[0].uvs[2].u.0.to_bits());
    assert_eq!(out[1].uvs[1].v.0.to_bits(), out[0].uvs[2].v.0.to_bits());
}

#[test]
fn one_vertex_inside_gives_one_smaller_triangle() {
    let tri = Triangle {
        vertices: [p(0.0, 0.0, 3.0), p(0.0, 2.0, -1.0), p(0.0, -2.0, -1.0)],
        uvs: [uv(0.5, 0.0), uv(1.0, 1.0), uv(0.0, 1.0)],
    };
    let (count, out) = triangle_clip_against_plane(&p(0.0, 0.0, 1.0), &p(0.0, 0.0, 1.0), &tri);
    assert_eq!(count, 1);
    assert_eq!(out[0].vertices[0].z.0, 3.0);
    assert!((out[0].vertices[1].z.0 - 1.0).abs() < 1e-6);
    assert!((out[0].vertices[2].z.0 - 1.0).abs() < 1e-6);
    assert!((out[0].vertices[1].y.0 - 1.0).abs() < 1e-6);
    assert!((out[0].vertices[2].y.0 + 1.0).abs() < 1e-6);
    assert!((shoelace(&out[0]) - 2.0).abs() < 1e-5);
}

#[test]
fn texture_coordinate_of_a_cut_vertex_is_interpolated_by_the_same_parameter() {
    let tri = Triangle {
        vertices: [p(0.3, 0.0, 3.0), p(1.0, 2.0, -1.0), p(-2.0, -2.0, -0.25)],
        uvs: [uv(0.5, 0.125), uv(1.0, 1.0), uv(0.0, 0.75)],
    };
    let plane_p = p(0.0, 0.0, 1.0);
    let plane_n = p(0.0, 0.0, 1.0);
    let (count, out) = triangle_clip_against_plane(&plane_p, &plane_n, &tri);
    assert_eq!(count, 1);
    for (corner, outside) in [(1usize, 1usize), (2, 2)] {
        let (point, t) =
            intersect_vector_plane(&plane_p, &plane_n, &tri.vertices[0], &tri.vertices[outside]);
        assert_eq!(out[0].vertices[corner].x.0, point.x.0);
        assert_eq!(out[0].vertices[corner].y.0, point.y.0);
        assert_eq!(out[0].vertices[corner].z.0, point.z.0);
        let u = tri.uvs[0].u.0 + (tri.uvs[outside].u.0 - tri.uvs[0].u.0) * t.0;
        let v = tri.uvs[0].v.0 + (tri.uvs[outside].v.0 - tri.uvs[0].v.0) * t.0;
        assert_eq!(out[0].uvs[corner].u.0, u);
        assert_eq!(out[0].uvs[corner].v.0, v);
        assert!(0.0 < t.0 && t.0 < 1.0);
    }
}

#[test]
fn segment_parallel_to_the_plane_divides_by_zero_without_failing() {
    let (point, t) = intersect_vector_plane(
        &p(0.0, 0.0, 1.0),
        &p(0.0, 0.0, 1.0),
        &p(0.0, 0.0, 2.0),
        &p(1.0, 0.0, 2.0),
    );
    assert!(t.0.is_infinite() || t.0.is_nan());
    assert!(!point.x.0.is_finite());
}

fn strip_texture(width: u8) -> Texture {
    let mut pixels = Vec::new();
    for i in 0..width {
        pixels.push(i);
        pixels.push(0);
        pixels.push(0);
        pixels.push(255);
    }
    Texture { pixels, resolution_u: width as u16, resolution_v: 1 }
}

#[test]
fn interpolation_across_a_span_is_perspective_correct() {
    let texture = strip_texture(100);
    let mut frame: Frame<F> = Frame::new(128, 16);
    // A at depth 1 with u = 0, B at depth 4 with u = 1: premultiplied.
    let a = ScreenVertex { x: 0, y: 0, uvw: VecUVW::uvw(F(0.0), F(0.0), F(1.0)) };
    let b = ScreenVertex { x: 100, y: 0, uvw: VecUVW::uvw(F(0.25), F(0.0), F(0.25)) };
    let c = ScreenVertex { x: 0, y: 10, uvw: VecUVW::uvw(F(0.0), F(0.0), F(1.0)) };
    texture_triangle(&mut frame, [a, b, c], &texture);
    // Halfway along the top row: lerp(0, 1/4, 1/2) / lerp(1, 1/4, 1/2) = 0.2.
    let mid = pixel(&frame, 50, 0);
    assert!(mid[0] == 19 || mid[0] == 20, "texel {}", mid[0]);
    assert_ne!(mid[0], 50);
    let quarter = pixel(&frame, 25, 0);
    // t = 1/4: (1/16) / (13/16) = 1/13
    assert!(quarter[0] == 7 || quarter[0] == 8, "texel {}", quarter[0]);
    assert_eq!(pixel(&frame, 0, 0)[0], 0);
    // the depth buffer holds the interpolated weight
    let w = frame.inv_depth[50].0;
    assert!((w - 0.625).abs() < 1e-4);
}

fn quad(z: f32) -> Vec<Triangle<F>> {
    let v = |x: f32, y: f32| Vec3d { x: F(x), y: F(y), z: F(z), w: F(0.0) };
    let t = |u: f32, v: f32| VecUVW::uvw(F(u), F(v), F(0.0));
    vec![
        Triangle {
            vertices: [v(-1.0, -1.0), v(1.0, -1.0), v(1.0, 1.0)],
            uvs: [t(0.0, 0.0), t(1.0, 0.0), t(1.0, 1.0)],
        },
        Triangle {
            vertices: [v(-1.0, -1.0), v(1.0, 1.0), v(-1.0, 1.0)],
            uvs: [t(0.0, 0.0), t(1.0, 1.0), t(0.0, 1.0)],
        },
    ]
}

fn facing_setup() -> FrameSetup<F> {
    FrameSetup {
        world: identity(),
        view: identity(),
        projection: projection_matrix(F(1.0), F(1.0), F(0.5), F(1000.0)),
        clip_plane_near: F(0.01),
    }
}

#[test]
fn quad_with_checkerboard_fills_its_footprint_without_seams() {
    let texture = checkerboard();
    let mesh = quad(2.0);
    let mut frame: Frame<F> = Frame::new(64, 64);
    // leftovers of an earlier frame must not survive
    frame.image[5] = 99;
    frame.inv_depth[7] = F(1000.0);
    render_frame(&mut frame, &texture, &facing_setup(), &mesh);

    // The quad at depth 2 is divided by its depth once by the matrix product
    // and once more on the way to the screen: it spans -0.25 to 0.25, that
    // is the columns and rows 24 to 40.
    let mut covered = 0;
    for y in 0..64usize {
        for x in 0..64usize {
            let px = pixel(&frame, x, y);
            let inside = (24..40).contains(&x) && (24..40).contains(&y);
            if inside {
                assert_eq!(px[3], 255, "hole at {},{}", x, y);
                assert!((frame.inv_depth[y * 64 + x].0 - 0.5).abs() < 1e-6);
                covered += 1;
            } else if !(23..=40).contains(&x) || !(23..=40).contains(&y) {
                assert_eq!(px, [0, 0, 0, 0], "stray pixel at {},{}", x, y);
                assert_eq!(frame.inv_depth[y * 64 + x].0, 0.0);
            }
        }
    }
    assert_eq!(covered, 256);
    // x and y are mirrored on the way to the screen: u = 0 is at the right,
    // v = 0 at the bottom.
    assert_eq!(pixel(&frame, 36, 36), [10, 0, 0, 255]);
    assert_eq!(pixel(&frame, 27, 36), [0, 20, 0, 255]);
    assert_eq!(pixel(&frame, 36, 27), [0, 0, 30, 255]);
    assert_eq!(pixel(&frame, 27, 27), [40, 40, 40, 255]);
    for y in 25..31usize {
        for x in 25..31usize {
            assert_eq!(pixel(&frame, x, y), [40, 40, 40, 255]);
            assert_eq!(pixel(&frame, x + 8, y), [0, 0, 30, 255]);
            assert_eq!(pixel(&frame, x, y + 8), [0, 20, 0, 255]);
            assert_eq!(pixel(&frame, x + 8, y + 8), [10, 0, 0, 255]);
        }
    }
}

#[test]
fn nearer_triangle_wins_whatever_the_drawing_order() {
    let near_texture = Texture { pixels: vec![200, 0, 0, 255], resolution_u: 1, resolution_v: 1 };
    let far_texture = Texture { pixels: vec![0, 0, 200, 255], resolution_u: 1, resolution_v: 1 };
    let tri = |w: f32, shift: i16| {
        [
            ScreenVertex { x: 2 + shift, y: 2, uvw: VecUVW::uvw(F(0.0), F(0.0), F(w)) },
            ScreenVertex { x: 30 + shift, y: 4, uvw: VecUVW::uvw(F(0.0), F(0.0), F(w)) },
            ScreenVertex { x: 10 + shift, y: 28, uvw: VecUVW::uvw(F(0.0), F(0.0), F(w)) },
        ]
    };
    let mut first: Frame<F> = Frame::new(48, 32);
    texture_triangle(&mut first, tri(0.5, 0), &near_texture);
    texture_triangle(&mut first, tri(0.25, 6), &far_texture);
    let mut second: Frame<F> = Frame::new(48, 32);
    texture_triangle(&mut second, tri(0.25, 6), &far_texture);
    texture_triangle(&mut second, tri(0.5, 0), &near_texture);
    assert_eq!(first.image, second.image);
    for i in 0..first.inv_depth.len() {
        assert_eq!(first.inv_depth[i].0, second.inv_depth[i].0);
    }
    // where both cover, the nearer one shows
    assert_eq!(pixel(&first, 16, 10), [200, 0, 0, 255]);
    // where only the farther covers, it shows
    assert_eq!(pixel(&first, 33, 5), [0, 0, 200, 255]);
}

#[test]
fn triangle_behind_the_viewer_is_not_drawn() {
    let texture = checkerboard();
    let mesh = quad(-2.0);
    let mut frame: Frame<F> = Frame::new(32, 32);
    render_frame(&mut frame, &texture, &facing_setup(), &mesh);
    assert!(frame.image.iter().all(|b| *b == 0));
    assert!(visible_triangles(&facing_setup(), 32, 32, &mesh[0]).is_empty());
}

#[test]
fn triangle_beyond_the_screen_is_clipped_to_it() {
    let texture = Texture { pixels: vec![1, 2, 3, 255], resolution_u: 1, resolution_v: 1 };
    // depth 0.5: the quad spans -4 to 4 on the screen's -1 to 1
    let mesh = quad(0.5);
    let mut frame: Frame<F> = Frame::new(16, 16);
    render_frame(&mut frame, &texture, &facing_setup(), &mesh);
    for y in 1..15usize {
        for x in 1..15usize {
            assert_eq!(pixel(&frame, x, y), [1, 2, 3, 255], "at {},{}", x, y);
        }
    }
    for t in visible_triangles(&facing_setup(), 16, 16, &mesh[0]) {
        for v in t.vertices.iter() {
            assert!(v.x.0 >= -1e-3 && v.x.0 <= 16.0 + 1e-3);
            assert!(v.y.0 >= -1e-3 && v.y.0 <= 15.0 + 1e-3);
        }
    }
}

#[test]
fn fragments_outside_the_frame_are_dropped() {
    let texture = Texture { pixels: vec![9, 9, 9, 255], resolution_u: 1, resolution_v: 1 };
    let mut frame: Frame<F> = Frame::new(8, 8);
    let far_out = [
        ScreenVertex { x: -50, y: -50, uvw: VecUVW::uvw(F(0.0), F(0.0), F(1.0)) },
        ScreenVertex { x: 60, y: -40, uvw: VecUVW::uvw(F(0.0), F(0.0), F(1.0)) },
        ScreenVertex { x: 5, y: 70, uvw: VecUVW::uvw(F(0.0), F(0.0), F(1.0)) },
    ];
    texture_triangle(&mut frame, far_out, &texture);
    assert_eq!(frame.image.len(), 8 * 8 * 4);
    assert_eq!(pixel(&frame, 4, 4), [9, 9, 9, 255]);
}

#[test]
fn texture_coordinates_out_of_range_are_clamped() {
    let texture = checkerboard();
    let mut frame: Frame<F> = Frame::new(8, 8);
    frame.plot(1, 1, F(7.5), F(-3.0), F(1.0), &texture);
    assert_eq!(pixel(&frame, 1, 1), [0, 20, 0, 255]);
    frame.plot(2, 1, F(f32::NAN), F(f32::INFINITY), F(1.0), &texture);
    assert_eq!(pixel(&frame, 2, 1), [0, 0, 30, 255]);
}

#[test]
fn fragment_with_a_smaller_or_equal_weight_is_rejected() {
    let texture = checkerboard();
    let mut frame: Frame<F> = Frame::new(4, 4);
    frame.plot(0, 0, F(0.0), F(0.0), F(0.5), &texture);
    assert_eq!(pixel(&frame, 0, 0), [10, 0, 0, 255]);
    frame.plot(0, 0, F(0.4), F(0.4), F(0.5), &texture);
    assert_eq!(pixel(&frame, 0, 0), [10, 0, 0, 255]);
    frame.plot(0, 0, F(0.2), F(0.2), F(0.25), &texture);
    assert_eq!(pixel(&frame, 0, 0), [10, 0, 0, 255]);
    frame.plot(0, 0, F(0.9), F(0.9), F(1.0), &texture);
    assert_eq!(pixel(&frame, 0, 0), [40, 40, 40, 255]);
    assert_eq!(frame.inv_depth[0].0, 1.0);
    // never behind the far end: a weight of zero or less never shows
    frame.plot(1, 0, F(0.0), F(0.0), F(0.0), &texture);
    frame.plot(1, 0, F(0.0), F(0.0), F(-1.0), &texture);
    frame.plot(1, 0, F(0.0), F(0.0), F(f32::NAN), &texture);
    assert_eq!(pixel(&frame, 1, 0), [0, 0, 0, 0]);
}
