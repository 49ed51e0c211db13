//! The fixed-point backend, with exact expected values.

use soft_raster::clip::triangle_clip_against_plane;
use soft_raster::fixed::{Fixed, FIXED_ONE};
use soft_raster::frame::Frame;
use soft_raster::raster::{texture_triangle, ScreenVertex};
use soft_raster::scalar::Scalar;
use soft_raster::texture::Texture;
use soft_raster::vector::{
    cross_product, dot_product, normalize, normalize2, vec_len, Q_rsqrt, Triangle, Vec3d, VecUVW,
};

fn fx(n: i32) -> Fixed {
    Fixed::from_i32(n)
}

fn frac(n: i32, d: i32) -> Fixed {
    Fixed::ratio(n, d)
}

#[test]
fn one_is_65536() {
    assert_eq!(Fixed::one().raw, 65536);
    assert_eq!(Fixed::one().raw, FIXED_ONE);
    assert_eq!(Fixed::zero().raw, 0);
    assert_eq!(fx(-3).raw, -3 * 65536);
    assert_eq!(Fixed::from_raw(7).raw, 7);
    assert_eq!(frac(1, 2).raw, 32768);
    assert_eq!(frac(-1, 3).raw, -21845);
    assert_eq!(frac(1, -3).raw, -21845);
}

#[test]
fn sums_saturate() {
    let top = Fixed::from_raw(i64::MAX);
    let bottom = Fixed::from_raw(i64::MIN);
    assert_eq!(top.plus(Fixed::one()).raw, i64::MAX);
    assert_eq!(bottom.minus(Fixed::one()).raw, i64::MIN);
    assert_eq!(bottom.negated().raw, i64::MAX);
    assert_eq!(fx(2).plus(fx(3)), fx(5));
    assert_eq!(fx(2).minus(fx(3)), fx(-1));
    assert_eq!(fx(2).negated(), fx(-2));
}

#[test]
fn products_and_quotients_round_towards_zero() {
    assert_eq!(fx(3).times(fx(-4)), fx(-12));
    assert_eq!(Fixed::from_raw(-1).times(frac(1, 2)).raw, 0);
    assert_eq!(Fixed::from_raw(3).times(frac(1, 2)).raw, 1);
    assert_eq!(Fixed::from_raw(-3).times(frac(1, 2)).raw, -1);
    assert_eq!(fx(1).over(fx(3)).raw, 21845);
    assert_eq!(fx(-1).over(fx(3)).raw, -21845);
    assert_eq!(fx(1).over(fx(-3)).raw, -21845);
    assert_eq!(fx(-1).over(fx(-3)).raw, 21845);
    assert_eq!(Fixed::from_raw(i64::MAX).times(fx(2)).raw, i64::MAX);
    assert_eq!(Fixed::from_raw(i64::MIN).times(fx(2)).raw, i64::MIN);
    assert_eq!(Fixed::from_raw(i64::MIN).times(fx(-2)).raw, i64::MAX);
}

#[test]
fn division_by_zero_saturates_on_the_side_of_the_dividend() {
    assert_eq!(fx(1).over(fx(0)).raw, i64::MAX);
    assert_eq!(fx(-1).over(fx(0)).raw, i64::MIN);
    assert_eq!(fx(0).over(fx(0)).raw, 0);
}

#[test]
fn comparisons() {
    assert!(fx(2).gt(fx(1)));
    assert!(!fx(1).gt(fx(1)));
    assert!(fx(1).ge(fx(1)));
    assert!(!fx(0).ge(fx(1)));
    assert!(fx(1).same(fx(1)));
    assert!(!fx(1).same(frac(1, 2)));
}

#[test]
fn truncation_and_rounding() {
    assert_eq!(frac(7, 2).trunc_i32(), 3);
    assert_eq!(frac(-7, 2).trunc_i32(), -3);
    assert_eq!(frac(7, 2).round_i32(), 4);
    assert_eq!(frac(-7, 2).round_i32(), -4);
    assert_eq!(frac(5, 4).round_i32(), 1);
    assert_eq!(frac(-5, 4).round_i32(), -1);
    assert_eq!(Fixed::from_raw(i64::MAX).trunc_i32(), i32::MAX);
    assert_eq!(Fixed::from_raw(i64::MIN).trunc_i32(), i32::MIN);
    assert_eq!(Fixed::from_raw(i64::MAX).round_i32(), i32::MAX);
    assert_eq!(Fixed::from_raw(i64::MIN).round_i32(), i32::MIN);
}

#[test]
fn square_roots_round_down() {
    assert_eq!(fx(4).sqrt(), fx(2));
    assert_eq!(fx(2).sqrt().raw, 92681);
    assert_eq!(fx(0).sqrt().raw, 0);
    assert_eq!(fx(-4).sqrt().raw, 0);
    assert_eq!(frac(1, 4).sqrt(), frac(1, 2));
    // the largest number: 2^47 - 2^-16, whose root is just below 2^23.5
    assert_eq!(Fixed::from_raw(i64::MAX).sqrt().raw, 777_472_127_993);
}

#[test]
fn single_precision_patterns_decode() {
    assert_eq!(Fixed::from_bits(0x3f80_0000), fx(1));
    assert_eq!(Fixed::from_bits(0xbf80_0000), fx(-1));
    assert_eq!(Fixed::from_bits(0x3f00_0000), frac(1, 2));
    assert_eq!(Fixed::from_bits(0x4049_0fdb).raw, 205_887);
    assert_eq!(Fixed::from_bits(0xc049_0fdb).raw, -205_887);
    assert_eq!(Fixed::from_bits(0).raw, 0);
    assert_eq!(Fixed::from_bits(0x8000_0000).raw, 0);
    // the smallest number that shows: 2^-16
    assert_eq!(Fixed::from_bits(0x3780_0000).raw, 1);
    assert_eq!(Fixed::from_bits(0x3700_0000).raw, 0);
    // denormals vanish
    assert_eq!(Fixed::from_bits(0x0000_0001).raw, 0);
    // 2^46 fits, 2^47 does not
    assert_eq!(Fixed::from_bits(0x5680_0000).raw, 1i64 << 62);
    assert_eq!(Fixed::from_bits(0x5700_0000).raw, i64::MAX);
    assert_eq!(Fixed::from_bits(0xd700_0000).raw, i64::MIN);
    // infinities saturate, not-a-number is zero
    assert_eq!(Fixed::from_bits(0x7f80_0000).raw, i64::MAX);
    assert_eq!(Fixed::from_bits(0xff80_0000).raw, i64::MIN);
    assert_eq!(Fixed::from_bits(0x7fc0_0000).raw, 0);
}

#[test]
fn single_precision_patterns_encode() {
    assert_eq!(fx(1).to_bits(), 0x3f80_0000);
    assert_eq!(fx(-1).to_bits(), 0xbf80_0000);
    assert_eq!(frac(1, 2).to_bits(), 0x3f00_0000);
    assert_eq!(frac(-1, 2).to_bits(), 0xbf00_0000);
    assert_eq!(fx(0).to_bits(), 0);
    assert_eq!(fx(3).to_bits(), 0x4040_0000);
    assert_eq!(Fixed::from_raw(1).to_bits(), 0x3780_0000);
    assert_eq!(Fixed::from_raw(205_887).to_bits(), 0x4049_0fc0);
    assert_eq!(Fixed::from_raw(i64::MIN).to_bits(), 0xd700_0000);
    // more than 24 significant bits are cut off
    assert_eq!(Fixed::from_raw((1 << 30) + 1).to_bits(), Fixed::from_raw(1 << 30).to_bits());
}

#[test]
fn decode_after_encode_keeps_short_numbers() {
    for raw in [1i64, -1, 65536, 98304, -123_456, 0x7f_ffff, 1 << 40, -(1 << 62)] {
        assert_eq!(Fixed::from_bits(Fixed::from_raw(raw).to_bits()).raw, raw);
    }
}

#[test]
fn fast_reciprocal_square_root_is_close() {
    // seed 0x5f3759df - (0x40800000 >> 1) = 0x3ef759df, about 0.483; one
    // Newton step brings it to about 0.499
    let r = Q_rsqrt(fx(4));
    assert!(r.raw > 32_600 && r.raw < 32_800, "{}", r.raw);
    let r = Q_rsqrt(fx(1));
    assert!(r.raw > 65_300 && r.raw < 65_600, "{}", r.raw);
    let r = Q_rsqrt(frac(1, 4));
    assert!(r.raw > 130_600 && r.raw < 131_200, "{}", r.raw);
}

fn v(x: i32, y: i32, z: i32) -> Vec3d<Fixed> {
    Vec3d::xyz1(fx(x), fx(y), fx(z))
}

#[test]
fn vector_products() {
    assert_eq!(dot_product(&v(1, 2, 3), &v(4, -5, 6)), fx(12));
    let c = cross_product(&v(1, 0, 0), &v(0, 1, 0));
    assert_eq!((c.x, c.y, c.z, c.w), (fx(0), fx(0), fx(1), fx(0)));
    assert_eq!(vec_len(&v(3, 4, 0)), fx(5));
    let n = normalize2(&v(3, 4, 0));
    assert_eq!((n.x.raw, n.y.raw, n.z.raw, n.w), (39321, 52428, 0, fx(1)));
    let n = normalize(&v(0, 0, 4));
    assert!(n.z.raw > 65_200 && n.z.raw < 65_600);
    assert_eq!((n.x, n.y, n.w), (fx(0), fx(0), fx(1)));
}

fn uv(u: i32, v: i32) -> VecUVW<Fixed> {
    VecUVW::uvw(fx(u), fx(v), fx(1))
}

#[test]
fn clip_counts_follow_the_inside_vertices() {
    let plane_p = v(0, 0, 1);
    let plane_n = v(0, 0, 1);
    for mask in 0..8u8 {
        let z = |bit: u8| if mask & bit != 0 { 3 } else { -1 };
        let tri = Triangle {
            vertices: [v(0, 0, z(1)), v(4, 0, z(2)), v(0, 4, z(4))],
            uvs: [uv(0, 0), uv(1, 0), uv(0, 1)],
        };
        let (count, _) = triangle_clip_against_plane(&plane_p, &plane_n, &tri);
        let inside = mask.count_ones();
        let expected = match inside {
            0 => 0,
            1 | 3 => 1,
            _ => 2,
        };
        assert_eq!(count, expected, "mask {}", mask);
    }
}

#[test]
fn clip_cuts_edges_where_they_meet_the_plane() {
    // vertex 1 is inside (z = 3), vertices 0 and 2 outside (z = -1)
    let tri = Triangle {
        vertices: [v(0, 0, -1), v(4, 0, 3), v(0, 4, -1)],
        uvs: [uv(0, 0), uv(1, 0), uv(0, 1)],
    };
    let (count, out) = triangle_clip_against_plane(&v(0, 0, 1), &v(0, 0, 1), &tri);
    assert_eq!(count, 1);
    let t = out[0];
    // kept vertex first, then the cuts towards vertex 0 and vertex 2, at t = 1/2
    assert_eq!((t.vertices[0].x, t.vertices[0].y, t.vertices[0].z), (fx(4), fx(0), fx(3)));
    assert_eq!((t.vertices[1].x, t.vertices[1].y, t.vertices[1].z), (fx(2), fx(0), fx(1)));
    assert_eq!((t.vertices[2].x, t.vertices[2].y, t.vertices[2].z), (fx(2), fx(2), fx(1)));
    assert_eq!((t.uvs[0].u, t.uvs[0].v), (fx(1), fx(0)));
    assert_eq!((t.uvs[1].u, t.uvs[1].v), (frac(1, 2), fx(0)));
    assert_eq!((t.uvs[2].u, t.uvs[2].v), (frac(1, 2), frac(1, 2)));
    // a cut point is a sum of a point and a scaled point: its w is 2
    assert_eq!(t.vertices[1].w, fx(2));
    assert_eq!(t.vertices[0].w, fx(1));
}

#[test]
fn clip_of_two_inside_vertices_shares_the_first_cut() {
    let tri = Triangle {
        vertices: [v(0, 0, 3), v(4, 0, -1), v(0, 4, 3)],
        uvs: [uv(0, 0), uv(1, 0), uv(0, 1)],
    };
    let (count, out) = triangle_clip_against_plane(&v(0, 0, 1), &v(0, 0, 1), &tri);
    assert_eq!(count, 2);
    assert_eq!(out[0].vertices[0].z, fx(3));
    assert_eq!(out[0].vertices[1].y, fx(4));
    assert_eq!((out[0].vertices[2].x, out[0].vertices[2].z), (fx(2), fx(1)));
    assert_eq!(out[1].vertices[0].y, fx(4));
    assert_eq!(out[1].vertices[1].x, out[0].vertices[2].x);
    assert_eq!(out[1].vertices[1].z, out[0].vertices[2].z);
    assert_eq!(out[1].uvs[1].u, out[0].uvs[2].u);
    assert_eq!((out[1].vertices[2].x, out[1].vertices[2].y), (fx(2), fx(2)));
}

#[test]
fn flat_shaded_rows_on_fixed_point() {
    let texture = Texture { pixels: vec![7, 8, 9, 255], resolution_u: 1, resolution_v: 1 };
    let mut frame: Frame<Fixed> = Frame::new(8, 8);
    let w = VecUVW::uvw(fx(0), fx(0), fx(1));
    let tri = [
        ScreenVertex { x: 0, y: 0, uvw: w },
        ScreenVertex { x: 4, y: 0, uvw: w },
        ScreenVertex { x: 0, y: 4, uvw: w },
    ];
    texture_triangle(&mut frame, tri, &texture);
    let alpha = |x: usize, y: usize| frame.image[4 * (y * 8 + x) + 3];
    // row y holds the columns 0 up to 4 - y
    for y in 0..8usize {
        for x in 0..8usize {
            let expected = if y <= 4 && x < 4 - y { 255 } else { 0 };
            assert_eq!(alpha(x, y), expected, "at {},{}", x, y);
        }
    }
    assert_eq!(frame.inv_depth[0], fx(1));
    assert_eq!(frame.inv_depth[7], fx(0));
}
