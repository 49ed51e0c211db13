//! Vectors and matrices on binary floating point.

use soft_raster::controls::Controls;
use soft_raster::matrix::{
    inverse_transformation_matrix, mul_matrix, multiply_vector_matrix, point_at_matrix,
    projection_matrix, rotation_matrix_x, rotation_matrix_y, rotation_matrix_z,
    transition_matrix, Matrix4x4,
};
use soft_raster::pipeline::{project_triangle, transform_triangle, world_matrix};
use soft_raster::raster::{edge, sort_by_y, ScreenVertex};
use soft_raster::scalar::Scalar;
use soft_raster::vector::{
    add_vec3d, add_vec_uvw, cross_product, div_vec3d, dot_product, mul_vec3d, mul_vec_uvw,
    normalize, normalize2, rev_vec_len, sub_vec2_uvw, sub_vec3d, vec_len, Q_rsqrt, Triangle,
    Vec3d, VecUVW, Vector,
};

#[derive(Copy, Clone, Debug, PartialEq)]
struct F(f32);

impl Scalar for F {
    fn zero() -> F {
        F(0.0)
    }
    fn one() -> F {
        F(1.0)
    }
    fn plus(self, rhs: F) -> F {
        F(self.0 + rhs.0)
    }
    fn minus(self, rhs: F) -> F {
        F(self.0 - rhs.0)
    }
    fn times(self, rhs: F) -> F {
        F(self.0 * rhs.0)
    }
    fn over(self, rhs: F) -> F {
        F(self.0 / rhs.0)
    }
    fn negated(self) -> F {
        F(-self.0)
    }
    fn gt(self, rhs: F) -> bool {
        self.0 > rhs.0
    }
    fn ge(self, rhs: F) -> bool {
        self.0 >= rhs.0
    }
    fn same(self, rhs: F) -> bool {
        self.0 == rhs.0
    }
    fn from_i32(v: i32) -> F {
        F(v as f32)
    }
    fn from_bits(bits: u32) -> F {
        F(f32::from_bits(bits))
    }
    fn trunc_i32(self) -> i32 {
        self.0 as i32
    }
    fn round_i32(self) -> i32 {
        self.0.round() as i32
    }
    fn to_bits(self) -> u32 {
        self.0.to_bits()
    }
    fn sqrt(self) -> F {
        F(self.0.sqrt())
    }
}

fn p(x: f32, y: f32, z: f32) -> Vec3d<F> {
    Vec3d::xyz1(F(x), F(y), F(z))
}

fn xyz(v: &Vec3d<F>) -> (f32, f32, f32) {
    (v.x.0, v.y.0, v.z.0)
}

fn rows(m: &Matrix4x4<F>) -> [[f32; 4]; 4] {
    let mut out = [[0.0; 4]; 4];
    for r in 0..4 {
        for c in 0..4 {
            out[r][c] = m.matrix[r][c].0;
        }
    }
    out
}

#[test]
fn vector_arithmetic() {
    let a = p(1.0, 2.0, 3.0);
    let b = p(0.5, -1.0, 4.0);
    assert_eq!(xyz(&add_vec3d(&a, &b)), (1.5, 1.0, 7.0));
    assert_eq!(add_vec3d(&a, &b).w.0, 2.0);
    assert_eq!(xyz(&sub_vec3d(&a, &b)), (0.5, 3.0, -1.0));
    assert_eq!(sub_vec3d(&a, &b).w.0, 0.0);
    assert_eq!(xyz(&mul_vec3d(&a, F(2.0))), (2.0, 4.0, 6.0));
    assert_eq!(mul_vec3d(&Vec3d::zero_vec(), F(2.0)).w.0, 1.0);
    assert_eq!(xyz(&div_vec3d(&a, F(2.0))), (0.5, 1.0, 1.5));
    assert_eq!(dot_product(&a, &b).0, 0.5 - 2.0 + 12.0);
    assert_eq!(xyz(&cross_product(&a, &b)), (11.0, -2.5, -2.0));
    assert_eq!(cross_product(&a, &b).w.0, 0.0);
    assert_eq!(vec_len(&p(3.0, 4.0, 12.0)).0, 13.0);
    let u = VecUVW::uvw(F(1.0), F(2.0), F(3.0));
    let w = VecUVW::uvw(F(0.5), F(0.25), F(1.0));
    let s = add_vec_uvw(&u, &w);
    assert_eq!((s.u.0, s.v.0, s.w.0), (1.5, 2.25, 4.0));
    let d = sub_vec2_uvw(&u, &w);
    assert_eq!((d.u.0, d.v.0, d.w.0), (0.5, 1.75, 2.0));
    let m = mul_vec_uvw(&u, F(-2.0));
    assert_eq!((m.u.0, m.v.0, m.w.0), (-2.0, -4.0, -6.0));
    let z: VecUVW<F> = VecUVW::zero_vec();
    assert_eq!((z.u.0, z.v.0, z.w.0), (0.0, 0.0, 0.0));
    let q = Vec3d::xyzw(F(1.0), F(2.0), F(3.0), F(4.0));
    assert_eq!(q.w.0, 4.0);
    let t: Triangle<F> = Triangle::zero_spaced_verticies();
    assert_eq!(t.vertices[2].w.0, 0.0);
    assert_eq!(t.uvs[1].v.0, 0.0);
}

#[test]
fn dot_product_over_all_components() {
    let a = Vec3d::xyzw(F(1.0), F(2.0), F(3.0), F(4.0));
    let b = Vec3d::xyzw(F(2.0), F(2.0), F(2.0), F(2.0));
    assert_eq!(<Vec3d<F> as Vector<F>>::dot_product(&a, &b).0, 20.0);
    assert_eq!(Vector::len(&Vec3d::xyzw(F(1.0), F(1.0), F(1.0), F(1.0))).0, 2.0);
    let u = VecUVW::uvw(F(2.0), F(3.0), F(6.0));
    assert_eq!(<VecUVW<F> as Vector<F>>::dot_product(&u, &u).0, 49.0);
    assert_eq!(Vector::len(&u).0, 7.0);
    assert!((Vector::rev_len(&u).0 - 1.0 / 7.0).abs() < 0.001);
    let z: Vec3d<F> = Vector::zero();
    assert_eq!((z.x.0, z.w.0), (0.0, 0.0));
}

#[test]
fn fast_reciprocal_square_root() {
    // the first guess for 4 is 0.48310754; one Newton step gives 0.49915358
    let r = Q_rsqrt(F(4.0)).0;
    assert!((r - 0.499_153_58).abs() < 1e-6, "{}", r);
    for x in [0.01f32, 0.5, 1.0, 2.0, 100.0, 12345.0] {
        let r = Q_rsqrt(F(x)).0;
        let exact = 1.0 / x.sqrt();
        assert!(((r - exact) / exact).abs() < 0.002, "{} {}", x, r);
    }
    assert!((rev_vec_len(&p(0.0, 3.0, 4.0)).0 - 0.2).abs() < 0.0005);
    let n = normalize(&p(0.0, 3.0, 4.0));
    assert!((n.y.0 - 0.6).abs() < 0.002 && (n.z.0 - 0.8).abs() < 0.002);
    assert_eq!((n.x.0, n.w.0), (0.0, 1.0));
    let n = normalize2(&p(0.0, 3.0, 4.0));
    assert_eq!(xyz(&n), (0.0, 0.6, 0.8));
}

#[test]
fn matrix_constructors() {
    let i: Matrix4x4<F> = Matrix4x4::ones_cascade();
    assert_eq!(rows(&i), [[1., 0., 0., 0.], [0., 1., 0., 0.], [0., 0., 1., 0.], [0., 0., 0., 1.]]);
    let z: Matrix4x4<F> = Matrix4x4::zeros();
    assert_eq!(rows(&z), [[0.0; 4]; 4]);
    let t = transition_matrix(F(1.0), F(2.0), F(3.0));
    assert_eq!(rows(&t)[3], [1.0, 2.0, 3.0, 1.0]);
    assert_eq!(rows(&t)[1], [0.0, 1.0, 0.0, 0.0]);
    let m = projection_matrix(F(2.0), F(1.5), F(0.5), F(1000.0));
    let r = rows(&m);
    assert_eq!(r[0], [3.0, 0.0, 0.0, 0.0]);
    assert_eq!(r[1], [0.0, 2.0, 0.0, 0.0]);
    assert_eq!(r[2], [0.0, 0.0, 1000.0 / 999.5, 1.0]);
    assert_eq!(r[3], [0.0, 0.0, -500.0 / 999.5, 0.0]);
    let (c, s) = (F(0.6), F(0.8));
    assert_eq!(rows(&rotation_matrix_z(c, s))[0], [0.6, 0.8, 0.0, 0.0]);
    assert_eq!(rows(&rotation_matrix_z(c, s))[1], [-0.8, 0.6, 0.0, 0.0]);
    assert_eq!(rows(&rotation_matrix_x(c, s))[1], [0.0, 0.6, 0.8, 0.0]);
    assert_eq!(rows(&rotation_matrix_x(c, s))[2], [0.0, -0.8, 0.6, 0.0]);
    assert_eq!(rows(&rotation_matrix_y(c, s))[0], [0.6, 0.0, -0.8, 0.0]);
    assert_eq!(rows(&rotation_matrix_y(c, s))[2], [0.8, 0.0, 0.6, 0.0]);
}

#[test]
fn matrix_products() {
    let a = transition_matrix(F(1.0), F(2.0), F(3.0));
    let b = rotation_matrix_z(F(0.0), F(1.0));
    let i: Matrix4x4<F> = Matrix4x4::ones_cascade();
    assert_eq!(rows(&mul_matrix(&a, &i)), rows(&a));
    assert_eq!(rows(&mul_matrix(&i, &b)), rows(&b));
    // first move, then turn: the offset is turned as well
    let ab = mul_matrix(&a, &b);
    assert_eq!(rows(&ab)[3], [-2.0, 1.0, 3.0, 1.0]);
    let ba = mul_matrix(&b, &a);
    assert_eq!(rows(&ba)[3], [1.0, 2.0, 3.0, 1.0]);
    let w = world_matrix(F(-1.25), &b, F(7.0), F(10.0));
    assert_eq!(rows(&w)[3], [1.25, 7.0, 10.0, 1.0]);
    assert_eq!(rows(&w)[0], [0.0, 1.0, 0.0, 0.0]);
}

#[test]
fn vector_times_matrix_divides_by_w() {
    let t = transition_matrix(F(1.0), F(2.0), F(3.0));
    let v = multiply_vector_matrix(&p(1.0, 1.0, 1.0), &t);
    assert_eq!((xyz(&v), v.w.0), ((2.0, 3.0, 4.0), 1.0));
    // the w of the input plays no part: it counts as 1
    let v = multiply_vector_matrix(&Vec3d::xyzw(F(1.0), F(1.0), F(1.0), F(9.0)), &t);
    assert_eq!((xyz(&v), v.w.0), ((2.0, 3.0, 4.0), 1.0));
    let m = projection_matrix(F(1.0), F(1.0), F(0.5), F(1000.0));
    let v = multiply_vector_matrix(&p(1.0, 2.0, 4.0), &m);
    assert_eq!(v.w.0, 4.0);
    assert_eq!((v.x.0, v.y.0), (0.25, 0.5));
    // where w comes out as zero nothing is divided
    let v = multiply_vector_matrix(&p(1.0, 2.0, 0.0), &m);
    assert_eq!((v.x.0, v.y.0, v.w.0), (1.0, 2.0, 0.0));
    assert_eq!(v.z.0, -500.0 / 999.5);
}

#[test]
fn camera_matrix_and_its_inverse() {
    let pos = p(1.0, 2.0, 3.0);
    let m = point_at_matrix(&pos, &p(1.0, 2.0, 4.0), &p(0.0, 1.0, 0.0));
    let r = rows(&m);
    let near = |a: f32, b: f32| (a - b).abs() < 0.005;
    // right, up, forward, position
    assert!(near(r[0][0], 1.0) && near(r[0][1], 0.0) && near(r[0][2], 0.0));
    assert!(near(r[1][0], 0.0) && near(r[1][1], 1.0) && near(r[1][2], 0.0));
    assert!(near(r[2][0], 0.0) && near(r[2][1], 0.0) && near(r[2][2], 1.0));
    assert_eq!(r[3], [1.0, 2.0, 3.0, 1.0]);
    let inv = inverse_transformation_matrix(&m);
    let back = multiply_vector_matrix(&pos, &inv);
    assert!(near(back.x.0, 0.0) && near(back.y.0, 0.0) && near(back.z.0, 0.0));
    let ahead = multiply_vector_matrix(&p(1.0, 2.0, 8.0), &inv);
    assert!((ahead.z.0 - 5.0).abs() < 0.02, "{}", ahead.z.0);
    // exact on a pure translation
    let t = transition_matrix(F(1.0), F(2.0), F(3.0));
    assert_eq!(rows(&inverse_transformation_matrix(&t))[3], [-1.0, -2.0, -3.0, 1.0]);
}

#[test]
fn projection_to_the_screen() {
    let tri = Triangle {
        vertices: [p(0.0, 0.0, 2.0), p(1.0, 0.0, 2.0), p(0.0, -1.0, 4.0)],
        uvs: [
            VecUVW::uvw(F(0.0), F(0.0), F(0.0)),
            VecUVW::uvw(F(1.0), F(0.0), F(0.0)),
            VecUVW::uvw(F(0.0), F(1.0), F(0.0)),
        ],
    };
    let m = projection_matrix(F(1.0), F(1.0), F(0.5), F(1000.0));
    let out = project_triangle(&tri, &m, 64, 32);
    // the middle of the view is the middle of the screen
    assert_eq!((out.vertices[0].x.0, out.vertices[0].y.0), (32.0, 16.0));
    // x = 1 at depth 2 is divided by 2 twice and mirrored: 32 * (1 - 0.25)
    assert_eq!((out.vertices[1].x.0, out.vertices[1].y.0), (24.0, 16.0));
    // y = -1 at depth 4: 16 * (1 + 1/16)
    assert_eq!((out.vertices[2].x.0, out.vertices[2].y.0), (32.0, 17.0));
    assert_eq!(out.vertices[0].w.0, 1.0);
    // texture coordinates over depth, and one over depth as the weight
    assert_eq!((out.uvs[1].u.0, out.uvs[1].v.0, out.uvs[1].w.0), (0.5, 0.0, 0.5));
    assert_eq!((out.uvs[2].u.0, out.uvs[2].v.0, out.uvs[2].w.0), (0.0, 0.25, 0.25));
    let moved = transform_triangle(&tri, &transition_matrix(F(0.0), F(0.0), F(1.0)));
    assert_eq!(moved.vertices[0].z.0, 3.0);
    assert_eq!(moved.uvs[1].u.0, 1.0);
}

#[test]
fn vertices_sort_by_row_and_keep_their_coordinates() {
    let v = |x: i16, y: i16, tag: f32| ScreenVertex { x, y, uvw: VecUVW::uvw(F(tag), F(0.0), F(1.0)) };
    for rows in [[1, 2, 3], [1, 3, 2], [2, 1, 3], [2, 3, 1], [3, 1, 2], [3, 2, 1], [2, 2, 1], [1, 2, 1]] {
        let input = [v(10, rows[0], 0.0), v(20, rows[1], 1.0), v(30, rows[2], 2.0)];
        let s = sort_by_y(input);
        assert!(s[0].y <= s[1].y && s[1].y <= s[2].y);
        for out in s.iter() {
            let tag = out.uvw.u.0 as usize;
            assert_eq!((out.x, out.y), (input[tag].x, input[tag].y));
        }
        let mut tags: Vec<usize> = s.iter().map(|o| o.uvw.u.0 as usize).collect();
        tags.sort();
        assert_eq!(tags, vec![0, 1, 2]);
    }
    // equal rows keep their order
    let s = sort_by_y([v(10, 5, 0.0), v(20, 5, 1.0), v(30, 5, 2.0)]);
    assert_eq!((s[0].x, s[1].x, s[2].x), (10, 20, 30));
}

#[test]
fn edges_step_by_row() {
    let a = ScreenVertex { x: 10, y: 2, uvw: VecUVW::uvw(F(0.0), F(1.0), F(0.5)) };
    let b = ScreenVertex { x: 2, y: 6, uvw: VecUVW::uvw(F(1.0), F(0.0), F(1.0)) };
    let e = edge(&a, &b);
    assert_eq!((e.x, e.y), (10, 2));
    assert_eq!(e.x_step.0, -2.0);
    assert_eq!((e.uvw_step.u.0, e.uvw_step.v.0, e.uvw_step.w.0), (0.25, -0.25, 0.125));
    // an edge within a row does not step
    let flat = edge(&a, &ScreenVertex { x: 50, y: 2, uvw: b.uvw });
    assert_eq!(flat.x_step.0, 0.0);
    assert_eq!((flat.uvw_step.u.0, flat.uvw_step.w.0), (0.0, 0.0));
}

#[test]
fn pointer_on_floats() {
    let mut c: Controls<F> = Controls::new(512, 512);
    assert_eq!(c.pointer_precise_x().0, 256.0);
    c.input_loop(
        false, F(100.4), F(100.5), F(0.0), F(0.0), F(1.0), false, false, false, false, false,
        false, false, 512, 512,
    );
    assert_eq!((c.pointer_x(), c.pointer_y()), (100, 101));
    c.input_loop(
        false, F(f32::NAN), F(-3.0), F(0.0), F(0.0), F(1.0), false, false, false, false, false,
        false, false, 512, 512,
    );
    assert_eq!((c.pointer_x(), c.pointer_y()), (0, 0));
    c.input_loop(
        false, F(1.0), F(1.0), F(0.0), F(0.0), F(0.0), false, false, false, false, false, false,
        false, 512, 512,
    );
    assert_eq!((c.pointer_x(), c.pointer_y()), (511, 511));
}
