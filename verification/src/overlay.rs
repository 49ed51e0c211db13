//! What is drawn over the finished frame: an outline around the rendered
//! shape and a picture on top.

use crate::texture::Texture;
use vstd::prelude::*;

verus! {

/// The alpha byte of the pixel in column `x` of row `y`.
pub open spec fn spec_alpha(image: Seq<u8>, width: int, x: int, y: int) -> u8 {
    image[4 * (y * width + x) + 3]
}

/// Whether the pixel in column `x` of row `y` is part of the outline: it is
/// not on the border of the image, it is fully transparent, and the pixel
/// above, left, right or below of it is fully opaque.
pub open spec fn spec_outlined(image: Seq<u8>, width: int, height: int, x: int, y: int) -> bool {
    &&& 1 <= x < width - 1
    &&& 1 <= y < height - 1
    &&& spec_alpha(image, width, x, y) == 0
    &&& (spec_alpha(image, width, x, y - 1) == 0xFF || spec_alpha(image, width, x - 1, y) == 0xFF
        || spec_alpha(image, width, x + 1, y) == 0xFF || spec_alpha(image, width, x, y + 1)
        == 0xFF)
}

/// Byte `c` (0 to 3) of the pixel in column `x` of row `y` after the
/// outline has been drawn onto `image`.
pub open spec fn spec_outline_byte(
    image: Seq<u8>,
    width: int,
    height: int,
    x: int,
    y: int,
    c: int,
) -> u8 {
    if spec_outlined(image, width, height, x, y) {
        0xFE
    } else {
        image[4 * (y * width + x) + c]
    }
}

/// The image with the outline drawn onto it.
pub open spec fn spec_outline_image(image: Seq<u8>, width: int, height: int) -> Seq<u8> {
    Seq::new(
        image.len(),
        |i: int| spec_outline_byte(image, width, height, (i / 4) % width, (i / 4) / width, i % 4),
    )
}

proof fn lemma_pixel_position(width: int, height: int, p: int)
    requires
        0 < width,
        0 <= p < width * height,
    ensures
        p == (p / width) * width + p % width,
        0 <= p % width < width,
        0 <= p / width < height,
{
    assert(p == (p / width) * width + p % width && 0 <= p % width < width && 0 <= p / width
        < height) by (nonlinear_arith)
        requires
            0 < width,
            0 <= p < width * height,
    ;
}

proof fn lemma_pixel_index(width: int, height: int, x: int, y: int)
    requires
        0 <= x < width,
        0 <= y < height,
    ensures
        0 <= y * width + x < width * height,
        4 * (y * width + x) + 3 < 4 * (width * height),
{
    assert(0 <= y * width + x < width * height) by (nonlinear_arith)
        requires
            0 <= x < width,
            0 <= y < height,
    ;
}

proof fn lemma_pixel_distinct(width: int, x1: int, y1: int, x2: int, y2: int)
    requires
        0 <= x1 < width,
        0 <= x2 < width,
        0 <= y1,
        0 <= y2,
        x1 != x2 || y1 != y2,
    ensures
        y1 * width + x1 != y2 * width + x2,
{
    assert(y1 * width + x1 != y2 * width + x2) by (nonlinear_arith)
        requires
            0 <= x1 < width,
            0 <= x2 < width,
            0 <= y1,
            0 <= y2,
            x1 != x2 || y1 != y2,
    ;
}

/// Draws an outline around what has been rendered: every fully transparent
/// inner pixel that touches a fully opaque pixel becomes `0xFE` in all four
/// bytes. All other pixels are kept.
pub fn render_outline(image: &mut Vec<u8>, width: u16, height: u16)
    requires
        old(image).len() == 4 * (width * height),
    ensures
        final(image)@ == spec_outline_image(old(image)@, width as int, height as int),
        forall|x: int, y: int, c: int|
            0 <= x < width && 0 <= y < height && 0 <= c < 4 ==> #[trigger] final(image)@[4 * (y
                * width + x) + c] == spec_outline_byte(
                old(image)@,
                width as int,
                height as int,
                x,
                y,
                c,
            ),
{
    let w: usize = width as usize;
    let h: usize = height as usize;
    let ghost before = image@;
    let mut y: usize = 1;
    while y + 1 < h
        invariant
            1 <= y <= 0x1_0000,
            w == width,
            h == height,
            before == old(image)@,
            image.len() == before.len(),
            before.len() == 4 * (w * h),
            forall|px: int, py: int, c: int|
                0 <= px < w && 0 <= py < h && 0 <= c < 4 ==> #[trigger] image@[4 * (py * w + px)
                    + c] == if py < y {
                    spec_outline_byte(before, w as int, h as int, px, py, c)
                } else {
                    before[4 * (py * w + px) + c]
                },
        decreases h - y,
    {
        let mut x: usize = 1;
        while x + 1 < w
            invariant
                1 <= x <= 0x1_0000,
                1 <= y,
                y + 1 < h,
                w == width,
                h == height,
                image.len() == before.len(),
                before.len() == 4 * (w * h),
                forall|px: int, py: int, c: int|
                    0 <= px < w && 0 <= py < h && 0 <= c < 4 ==> #[trigger] image@[4 * (py * w
                        + px) + c] == if py < y || (py == y && 1 <= px < x) {
                        spec_outline_byte(before, w as int, h as int, px, py, c)
                    } else {
                        before[4 * (py * w + px) + c]
                    },
            decreases w - x,
        {
            proof {
                lemma_pixel_index(w as int, h as int, x as int, y as int);
                lemma_pixel_index(w as int, h as int, x as int, y - 1);
                lemma_pixel_index(w as int, h as int, x as int, y + 1);
                lemma_pixel_index(w as int, h as int, x - 1, y as int);
                lemma_pixel_index(w as int, h as int, x + 1, y as int);
                assert((y - 1) * w + x == y * w + x - w) by (nonlinear_arith);
                assert((y + 1) * w + x == y * w + x + w) by (nonlinear_arith);
            }
            let xx: usize = y * w + x;
            let xt: usize = xx - w;
            let xb: usize = xx + w;
            let xl: usize = xx - 1;
            let xr: usize = xx + 1;
            let ghost mid = image@;
            assert(mid[4 * (y * w + x) + 3] == before[4 * (y * w + x) + 3]);
            assert(mid[4 * ((y - 1) * w + x) + 3] == spec_outline_byte(
                before,
                w as int,
                h as int,
                x as int,
                y - 1,
                3,
            ));
            assert(mid[4 * ((y + 1) * w + x) + 3] == before[4 * ((y + 1) * w + x) + 3]);
            assert(mid[4 * (y * w + (x - 1)) + 3] == if 1 <= x - 1 {
                spec_outline_byte(before, w as int, h as int, x - 1, y as int, 3)
            } else {
                before[4 * (y * w + (x - 1)) + 3]
            });
            assert(mid[4 * (y * w + (x + 1)) + 3] == before[4 * (y * w + (x + 1)) + 3]);
            if image[xx * 4 + 3] == 0 && (image[xt * 4 + 3] == 0xFF || image[xl * 4 + 3] == 0xFF
                || image[xr * 4 + 3] == 0xFF || image[xb * 4 + 3] == 0xFF) {
                image[xx * 4] = 0xFE;
                image[xx * 4 + 1] = 0xFE;
                image[xx * 4 + 2] = 0xFE;
                image[xx * 4 + 3] = 0xFE;
            }
            proof {
                assert forall|px: int, py: int, c: int|
                    0 <= px < w && 0 <= py < h && 0 <= c < 4 implies #[trigger] image@[4 * (py * w
                    + px) + c] == if py < y || (py == y && 1 <= px < x + 1) {
                    spec_outline_byte(before, w as int, h as int, px, py, c)
                } else {
                    before[4 * (py * w + px) + c]
                } by {
                    lemma_pixel_index(w as int, h as int, px, py);
                    if px != x || py != y {
                        lemma_pixel_distinct(w as int, px, py, x as int, y as int);
                        assert(image@[4 * (py * w + px) + c] == mid[4 * (py * w + px) + c]);
                    }
                }
            }
            x += 1;
        }
        proof {
            assert forall|px: int, py: int, c: int|
                0 <= px < w && 0 <= py < h && 0 <= c < 4 implies #[trigger] image@[4 * (py * w
                + px) + c] == if py < y + 1 {
                spec_outline_byte(before, w as int, h as int, px, py, c)
            } else {
                before[4 * (py * w + px) + c]
            } by {
                if py == y && !(1 <= px < x) {
                    assert(!spec_outlined(before, w as int, h as int, px, py));
                }
            }
        }
        y += 1;
    }
    proof {
        assert forall|px: int, py: int, c: int|
            0 <= px < w && 0 <= py < h && 0 <= c < 4 implies #[trigger] image@[4 * (py * w + px)
            + c] == spec_outline_byte(before, w as int, h as int, px, py, c) by {
            if py >= y {
                assert(!spec_outlined(before, w as int, h as int, px, py));
            }
        }
        let after = spec_outline_image(before, w as int, h as int);
        assert forall|i: int| 0 <= i < image@.len() implies image@[i] == after[i] by {
            let p = i / 4;
            let c = i % 4;
            assert(p < w * h);
            lemma_pixel_position(w as int, h as int, p);
            let x = p % (w as int);
            let y2 = p / (w as int);
            assert(i == 4 * (y2 * w + x) + c);
            assert(image@[4 * (y2 * w + x) + c] == spec_outline_byte(
                before,
                w as int,
                h as int,
                x,
                y2,
                c,
            ));
        }
        assert(image@ =~= after);
    }
}

/// Pixel `i` of `image` with the picture `overlay` on top: where the
/// picture has a pixel `i` that is not fully transparent, its colour, fully
/// opaque; else the pixel of the image.
pub open spec fn spec_overlay_byte(image: Seq<u8>, overlay: Seq<u8>, i: int, c: int) -> u8 {
    if 4 * i + 3 < overlay.len() && overlay[4 * i + 3] != 0 {
        if c == 3 {
            0xFF
        } else {
            overlay[4 * i + c]
        }
    } else {
        image[4 * i + c]
    }
}

/// The image with the picture `overlay` on top.
pub open spec fn spec_overlay_image(image: Seq<u8>, overlay: Seq<u8>) -> Seq<u8> {
    Seq::new(image.len(), |i: int| spec_overlay_byte(image, overlay, i / 4, i % 4))
}

/// Lays the picture `overlay` over the image, pixel on pixel from the first.
pub fn render_overlay(image: &mut Vec<u8>, overlay: &Texture)
    requires
        old(image).len() % 4 == 0,
    ensures
        final(image)@ == spec_overlay_image(old(image)@, overlay.pixels@),
{
    let pixels: usize = image.len() / 4;
    let mut i: usize = 0;
    while i < pixels
        invariant
            i <= pixels,
            pixels * 4 == image.len(),
            image.len() == old(image).len(),
            forall|k: int, c: int|
                0 <= k < pixels && 0 <= c < 4 ==> #[trigger] image@[4 * k + c] == if k < i {
                    spec_overlay_byte(old(image)@, overlay.pixels@, k, c)
                } else {
                    old(image)@[4 * k + c]
                },
        decreases pixels - i,
    {
        let off: usize = i * 4;
        if off + 3 < overlay.pixels.len() {
            let a: u8 = overlay.pixels[off + 3];
            if a != 0 {
                let ghost mid = image@;
                image[off] = overlay.pixels[off];
                image[off + 1] = overlay.pixels[off + 1];
                image[off + 2] = overlay.pixels[off + 2];
                image[off + 3] = 0xFF;
                proof {
                    assert forall|k: int, c: int|
                        0 <= k < pixels && 0 <= c < 4 implies #[trigger] image@[4 * k + c]
                        == if k < i + 1 {
                        spec_overlay_byte(old(image)@, overlay.pixels@, k, c)
                    } else {
                        old(image)@[4 * k + c]
                    } by {
                        if k != i {
                            assert(image@[4 * k + c] == mid[4 * k + c]);
                        }
                    }
                }
            }
        }
        i += 1;
    }    proof {
        let after = spec_overlay_image(old(image)@, overlay.pixels@);
        assert forall|j: int| 0 <= j < image@.len() implies image@[j] == after[j] by {
            let k = j / 4;
            let c = j % 4;
            assert(image@[4 * k + c] == spec_overlay_byte(old(image)@, overlay.pixels@, k, c));
        }
        assert(image@ =~= after);
    }
}

} // verus!
