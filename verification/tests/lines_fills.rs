use soft_raster::color::RGB;
use soft_raster::fill::{
    draw_line, draw_triangle_safe, fill_bottom_flat_triangle, fill_top_flat_triangle,
    fill_triangle_1, fill_triangle_safe, flat_triangle_in_order,
};
use soft_raster::fixed::Fixed;
use soft_raster::frame::{draw_safe, Draw};
use soft_raster::line::draw_line_safe;
use soft_raster::overlay::{render_outline, render_overlay};
use soft_raster::scalar::Scalar;
use soft_raster::texture::Texture;
use soft_raster::vector::{Triangle, Vec3d, VecUVW};

const W: u16 = 8;
const H: u16 = 6;

fn blank() -> Vec<u8> {
    vec![0u8; 4 * W as usize * H as usize]
}

fn lit(image: &[u8]) -> Vec<(usize, usize)> {
    let mut v = Vec::new();
    for y in 0..H as usize {
        for x in 0..W as usize {
            if image[4 * (y * W as usize + x) + 3] != 0 {
                v.push((x, y));
            }
        }
    }
    v
}

#[test]
fn line_visits_one_pixel_per_step_of_the_longer_extent() {
    let mut image = blank();
    draw_line_safe(&mut image, W, H, 0, 0, 7, 3);
    assert_eq!(
        lit(&image),
        vec![(0, 0), (1, 0), (2, 1), (3, 1), (4, 2), (5, 2), (6, 3), (7, 3)]
    );
    assert!(image.iter().all(|b| *b == 0 || *b == 0xff));
}

#[test]
fn line_runs_in_every_direction() {
    let mut image = blank();
    draw_line_safe(&mut image, W, H, 7, 3, 0, 0);
    assert_eq!(lit(&image).len(), 8);
    assert!(lit(&image).contains(&(0, 0)) && lit(&image).contains(&(7, 3)));
    let mut image = blank();
    draw_line_safe(&mut image, W, H, 2, 5, 2, 1);
    assert_eq!(lit(&image), vec![(2, 1), (2, 2), (2, 3), (2, 4), (2, 5)]);
    let mut image = blank();
    draw_line_safe(&mut image, W, H, 1, 4, 5, 0);
    assert_eq!(lit(&image), vec![(5, 0), (4, 1), (3, 2), (2, 3), (1, 4)]);
    let mut image = blank();
    draw_line_safe(&mut image, W, H, 3, 3, 3, 3);
    assert_eq!(lit(&image), vec![(3, 3)]);
}

#[test]
fn line_outside_of_the_image_is_cut() {
    let mut image = blank();
    draw_line_safe(&mut image, W, H, -3, 2, 20, 2);
    assert_eq!(lit(&image), (0..8).map(|x| (x, 2)).collect::<Vec<_>>());
    let mut image = blank();
    draw_line_safe(&mut image, W, H, -5, -5, -1, -9);
    assert!(lit(&image).is_empty());
}

#[test]
fn horizontal_run_is_half_open() {
    let mut image = blank();
    draw_line(&mut image, W, H, 1, 2, 5, &RGB::rgb(1, 2, 3));
    assert_eq!(lit(&image), vec![(2, 1), (3, 1), (4, 1)]);
    assert_eq!(&image[4 * (8 + 2)..4 * (8 + 2) + 4], &[1, 2, 3, 255]);
    draw_line(&mut image, W, H, 9, 0, 5, &RGB::black());
    draw_line(&mut image, W, H, 2, 5, 2, &RGB::black());
    draw_line(&mut image, W, H, 3, -4, 100, &RGB::rgb(9, 9, 9));
    assert_eq!(lit(&image).len(), 3 + 8);
}

#[test]
fn bottom_flat_triangle_widens_downwards() {
    let mut image = blank();
    fill_bottom_flat_triangle::<Fixed>(&mut image, W, H, 0, 4, 0, 6, 3, &RGB::rgb(5, 5, 5));
    let rows: Vec<usize> =
        (0..H as usize).map(|y| lit(&image).iter().filter(|p| p.1 == y).count()).collect();
    assert!(flat_triangle_in_order(0, 4, 0, 6, 3));
    assert_eq!(rows[0], 1);
    assert!(rows[0] <= rows[1] && rows[1] <= rows[2] && rows[2] <= rows[3] && rows[3] <= rows[4]);
    assert_eq!(rows[4], 7);
    assert_eq!(rows[5], 0);
    assert!(lit(&image).contains(&(3, 0)));
    assert!(lit(&image).contains(&(0, 4)) && lit(&image).contains(&(6, 4)));
}

#[test]
fn top_flat_triangle_narrows_downwards() {
    let mut image = blank();
    fill_top_flat_triangle::<Fixed>(&mut image, W, H, 1, 5, 0, 6, 3, &RGB::rgb(5, 5, 5));
    let rows: Vec<usize> =
        (0..H as usize).map(|y| lit(&image).iter().filter(|p| p.1 == y).count()).collect();
    assert_eq!(rows[0], 0);
    assert_eq!(rows[1], 7);
    assert_eq!(rows[5], 1);
    assert!(rows[1] >= rows[2] && rows[2] >= rows[3] && rows[3] >= rows[4] && rows[4] >= rows[5]);
    assert!(lit(&image).contains(&(3, 5)));
}

#[test]
fn flat_triangles_draw_whatever_the_order_of_their_corners() {
    assert!(!flat_triangle_in_order(0, 4, 6, 0, 3));
    assert!(!flat_triangle_in_order(4, 0, 0, 6, 3));
    let mut a = blank();
    fill_bottom_flat_triangle::<Fixed>(&mut a, W, H, 0, 4, 0, 6, 3, &RGB::rgb(5, 5, 5));
    let mut b = blank();
    fill_bottom_flat_triangle::<Fixed>(&mut b, W, H, 0, 4, 6, 0, 3, &RGB::rgb(5, 5, 5));
    assert_eq!(a, b);
}

#[test]
fn general_triangle_is_split_at_its_middle_corner() {
    let mut image = blank();
    fill_triangle_1::<Fixed>(&mut image, W, H, 0, 5, 6, 2, 2, 0, &RGB::rgb(1, 1, 1));
    let pixels = lit(&image);
    assert!(pixels.contains(&(2, 0)));
    assert!(pixels.contains(&(6, 2)));
    assert!(pixels.contains(&(0, 5)));
    assert!(pixels.contains(&(3, 2)));
    assert!(!pixels.contains(&(7, 5)));
    assert!(!pixels.contains(&(0, 0)));
    // every row of the triangle has pixels
    for y in 0..6 {
        assert!(pixels.iter().any(|p| p.1 == y));
    }
}

fn at(x: i32, y: i32) -> Vec3d<Fixed> {
    Vec3d::xyz1(Fixed::from_i32(x), Fixed::from_i32(y), Fixed::zero())
}

fn tri(a: (i32, i32), b: (i32, i32), c: (i32, i32)) -> Triangle<Fixed> {
    Triangle {
        vertices: [at(a.0, a.1), at(b.0, b.1), at(c.0, c.1)],
        uvs: [VecUVW::zero_vec(), VecUVW::zero_vec(), VecUVW::zero_vec()],
    }
}

#[test]
fn safe_fill_brings_corners_into_the_image() {
    let mut image = blank();
    fill_triangle_safe(&mut image, W, H, &tri((-50, -50), (90, -50), (90, 90)), &RGB::rgb(2, 2, 2));
    // corners become (0,0), (7,0), (7,5)
    assert!(lit(&image).contains(&(7, 5)));
    assert!(lit(&image).contains(&(0, 0)));
    assert!(!lit(&image).contains(&(0, 5)));
}

#[test]
fn wire_frame_draws_three_sides() {
    let mut image = blank();
    draw_triangle_safe(&mut image, W, H, &tri((0, 0), (6, 0), (0, 4)));
    let pixels = lit(&image);
    for x in 0..=6 {
        assert!(pixels.contains(&(x, 0)));
    }
    for y in 0..=4 {
        assert!(pixels.contains(&(0, y)));
    }
    assert!(pixels.contains(&(3, 2)));
    assert!(!pixels.contains(&(1, 1)));
}

#[test]
fn texels_are_copied_whole() {
    let texture = Texture { pixels: vec![1, 2, 3, 4, 5, 6, 7, 8], resolution_u: 2, resolution_v: 1 };
    let mut image = blank();
    draw_safe(&mut image, &texture, 3, 1);
    assert_eq!(&image[12..16], &[5, 6, 7, 8]);
    Draw(&mut image, W, &texture, 1, 2, Fixed::ratio(1, 4), Fixed::zero());
    assert_eq!(&image[4 * 17..4 * 17 + 4], &[1, 2, 3, 4]);
    Draw(&mut image, W, &texture, 1, 2, Fixed::ratio(3, 4), Fixed::from_i32(3));
    assert_eq!(&image[4 * 17..4 * 17 + 4], &[5, 6, 7, 8]);
    Draw(&mut image, W, &Texture::zero_resolution_texture(), 1, 2, Fixed::zero(), Fixed::zero());
    assert_eq!(&image[4 * 17..4 * 17 + 4], &[0, 0, 0, 0]);
}

#[test]
fn outline_surrounds_opaque_pixels() {
    let mut image = blank();
    let set = |image: &mut Vec<u8>, x: usize, y: usize| {
        for c in 0..4 {
            image[4 * (y * W as usize + x) + c] = 0xff;
        }
    };
    set(&mut image, 3, 2);
    set(&mut image, 4, 2);
    set(&mut image, 0, 4);
    render_outline(&mut image, W, H);
    let px = |x: usize, y: usize| image[4 * (y * W as usize + x) + 3];
    for (x, y) in [(2, 2), (5, 2), (3, 1), (4, 1), (3, 3), (4, 3), (1, 4)] {
        assert_eq!(px(x, y), 0xfe, "at {},{}", x, y);
        assert_eq!(image[4 * (y * W as usize + x)], 0xfe);
    }
    // diagonal neighbours and neighbours of the outline stay clear
    for (x, y) in [(2, 1), (5, 3), (1, 2), (6, 2), (2, 4)] {
        assert_eq!(px(x, y), 0, "at {},{}", x, y);
    }
    // the border is never outlined
    assert_eq!(px(0, 3), 0);
    assert_eq!(px(0, 5), 0);
    assert_eq!(px(3, 2), 0xff);
}

#[test]
fn outline_of_a_tiny_image_does_nothing() {
    let mut image = vec![0xffu8, 0xff, 0xff, 0xff, 0, 0, 0, 0];
    render_outline(&mut image, 2, 1);
    assert_eq!(image, vec![0xff, 0xff, 0xff, 0xff, 0, 0, 0, 0]);
    let mut none: Vec<u8> = Vec::new();
    render_outline(&mut none, 0, 0);
    render_outline(&mut none, 5, 0);
    assert!(none.is_empty());
}

#[test]
fn overlay_covers_where_it_is_not_transparent() {
    let mut image = vec![1u8, 1, 1, 1, 2, 2, 2, 2, 3, 3, 3, 3];
    let overlay =
        Texture { pixels: vec![9, 8, 7, 0, 6, 5, 4, 1], resolution_u: 2, resolution_v: 1 };
    render_overlay(&mut image, &overlay);
    assert_eq!(image, vec![1, 1, 1, 1, 6, 5, 4, 255, 3, 3, 3, 3]);
}
