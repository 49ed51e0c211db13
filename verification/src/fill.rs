//! Flat-coloured triangles and wire frames.
//!
//! A triangle is filled as one or two triangles with a horizontal side: one
//! with the flat side at the bottom, drawn from its tip downwards, and one
//! with the flat side at the top, drawn from its tip upwards.

use crate::arith::spec_clamp;
use crate::color::RGB;
use crate::frame::spec_put_pixel;
use crate::line::{draw_line_safe, spec_draw_line, spec_line_walkable};
use crate::scalar::Scalar;
use crate::vector::Triangle;
use vstd::prelude::*;

verus! {

/// `image` with the pixel in column `x` of row `y` set to the opaque colour
/// `color`. A position outside of the image changes nothing.
pub open spec fn spec_color_pixel(
    image: Seq<u8>,
    width: int,
    height: int,
    x: int,
    y: int,
    color: RGB,
) -> Seq<u8> {
    if 0 <= x < width && 0 <= y < height {
        spec_put_pixel(image, y * width + x, seq![color.r, color.g, color.b, 0xFFu8])
    } else {
        image
    }
}

/// `image` with the columns `x` up to, not including, `x1` of row `y` set
/// to `color`.
pub open spec fn spec_hline(
    image: Seq<u8>,
    width: int,
    height: int,
    y: int,
    x: int,
    x1: int,
    color: RGB,
) -> Seq<u8>
    decreases x1 - x,
{
    if x >= x1 {
        image
    } else {
        spec_hline(
            spec_color_pixel(image, width, height, x, y, color),
            width,
            height,
            y,
            x + 1,
            x1,
            color,
        )
    }
}

/// A number without its fraction, brought into the range of `i16`.
pub open spec fn spec_trunc_i16<R: Scalar>(c: R) -> int {
    spec_clamp(c.spec_trunc_i32() as int, i16::MIN as int, i16::MAX as int)
}

/// The first column of the span between the edge positions `c1` and `c2`:
/// the smaller of the two, without its fraction, brought into
/// `[0, width]`.
pub open spec fn spec_span_from<R: Scalar>(c1: R, c2: R, width: int) -> int {
    spec_clamp(
        spec_trunc_i16(
            if c1.spec_gt(c2) {
                c2
            } else {
                c1
            },
        ),
        0,
        width,
    )
}

/// The column after the last of the span between the edge positions `c1`
/// and `c2`: one past the larger of the two, without its fraction, brought
/// into `[0, width]`.
pub open spec fn spec_span_to<R: Scalar>(c1: R, c2: R, width: int) -> int {
    spec_clamp(
        spec_trunc_i16(
            if c1.spec_gt(c2) {
                c1
            } else {
                c2
            },
        ) + 1,
        0,
        width,
    )
}

/// The image after the rows `y` down to `bot_y` have been filled between two
/// edges that stand at `curx1` and `curx2` in row `y` and move by
/// `invslope1` and `invslope2` from one row to the next.
pub open spec fn spec_fill_down<R: Scalar>(
    image: Seq<u8>,
    width: int,
    height: int,
    y: int,
    bot_y: int,
    curx1: R,
    curx2: R,
    invslope1: R,
    invslope2: R,
    color: RGB,
) -> Seq<u8>
    decreases bot_y - y + 1,
{
    if y > bot_y {
        image
    } else {
        spec_fill_down(
            spec_hline(
                image,
                width,
                height,
                y,
                spec_span_from(curx1, curx2, width),
                spec_span_to(curx1, curx2, width),
                color,
            ),
            width,
            height,
            y + 1,
            bot_y,
            curx1.spec_plus(invslope1),
            curx2.spec_plus(invslope2),
            invslope1,
            invslope2,
            color,
        )
    }
}

/// The image after the rows `y` up to `top_y` have been filled between two
/// edges that stand at `curx1` and `curx2` in row `y` and move back by
/// `invslope1` and `invslope2` from one row to the row above.
pub open spec fn spec_fill_up<R: Scalar>(
    image: Seq<u8>,
    width: int,
    height: int,
    y: int,
    top_y: int,
    curx1: R,
    curx2: R,
    invslope1: R,
    invslope2: R,
    color: RGB,
) -> Seq<u8>
    decreases y - top_y + 1,
{
    if y < top_y {
        image
    } else {
        spec_fill_up(
            spec_hline(
                image,
                width,
                height,
                y,
                spec_span_from(curx1, curx2, width),
                spec_span_to(curx1, curx2, width),
                color,
            ),
            width,
            height,
            y - 1,
            top_y,
            curx1.spec_minus(invslope1),
            curx2.spec_minus(invslope2),
            invslope1,
            invslope2,
            color,
        )
    }
}

/// The quotient `(a - b) / (c - d)` of whole numbers, as a number.
pub open spec fn spec_slope<R: Scalar>(a: i16, b: i16, c: i16, d: i16) -> R {
    R::spec_from_i32((a - b) as i32).spec_over(R::spec_from_i32((c - d) as i32))
}

/// The image with the triangle filled that has its tip at `(tx, top_y)` and
/// its flat side in row `bot_y`, from column `lx` to column `rx`.
pub open spec fn spec_fill_bottom_flat_triangle<R: Scalar>(
    image: Seq<u8>,
    width: int,
    height: int,
    top_y: i16,
    bot_y: i16,
    lx: i16,
    rx: i16,
    tx: i16,
    color: RGB,
) -> Seq<u8> {
    spec_fill_down(
        image,
        width,
        height,
        top_y as int,
        bot_y as int,
        R::spec_from_i32(tx as i32),
        R::spec_from_i32(tx as i32),
        spec_slope::<R>(lx, tx, bot_y, top_y),
        spec_slope::<R>(rx, tx, bot_y, top_y),
        color,
    )
}

/// The image with the triangle filled that has its tip at `(bx, bot_y)` and
/// its flat side in row `top_y`, from column `lx` to column `rx`.
pub open spec fn spec_fill_top_flat_triangle<R: Scalar>(
    image: Seq<u8>,
    width: int,
    height: int,
    top_y: i16,
    bot_y: i16,
    lx: i16,
    rx: i16,
    bx: i16,
    color: RGB,
) -> Seq<u8> {
    spec_fill_up(
        image,
        width,
        height,
        bot_y as int,
        top_y as int,
        R::spec_from_i32(bx as i32),
        R::spec_from_i32(bx as i32),
        spec_slope::<R>(bx, lx, bot_y, top_y),
        spec_slope::<R>(bx, rx, bot_y, top_y),
        color,
    )
}

/// The three corners `(x, y)` in ascending order of their rows, as three
/// exchanges find it: second with first, third with first, third with
/// second, each made where the later corner has the strictly smaller row.
pub open spec fn spec_sort_corners(c: [(i16, i16); 3]) -> [(i16, i16); 3] {
    let a: [(i16, i16); 3] = if c[1].1 < c[0].1 {
        [c[1], c[0], c[2]]
    } else {
        c
    };
    let b: [(i16, i16); 3] = if a[2].1 < a[0].1 {
        [a[2], a[1], a[0]]
    } else {
        a
    };
    if b[2].1 < b[1].1 {
        [b[0], b[2], b[1]]
    } else {
        b
    }
}

/// The column in which the long side of a triangle crosses the row of the
/// middle corner.
pub open spec fn spec_split_x<R: Scalar>(s: [(i16, i16); 3]) -> int {
    s[0].0 + spec_trunc_i16(
        spec_slope::<R>(s[1].1, s[0].1, s[2].1, s[0].1).spec_times(
            R::spec_from_i32((s[2].0 - s[0].0) as i32),
        ),
    )
}

/// The image with the triangle with the corners `c` filled.
pub open spec fn spec_fill_triangle_1<R: Scalar>(
    image: Seq<u8>,
    width: int,
    height: int,
    c: [(i16, i16); 3],
    color: RGB,
) -> Seq<u8> {
    let s = spec_sort_corners(c);
    if s[1].1 == s[2].1 {
        spec_fill_bottom_flat_triangle::<R>(
            image,
            width,
            height,
            s[0].1,
            s[1].1,
            s[1].0,
            s[2].0,
            s[0].0,
            color,
        )
    } else if s[0].1 == s[1].1 {
        spec_fill_top_flat_triangle::<R>(
            image,
            width,
            height,
            s[0].1,
            s[2].1,
            s[0].0,
            s[1].0,
            s[2].0,
            color,
        )
    } else {
        let x4 = spec_clamp(spec_split_x::<R>(s), i16::MIN as int, i16::MAX as int) as i16;
        spec_fill_top_flat_triangle::<R>(
            spec_fill_bottom_flat_triangle::<R>(
                image,
                width,
                height,
                s[0].1,
                s[1].1,
                s[1].0,
                x4,
                s[0].0,
                color,
            ),
            width,
            height,
            s[1].1,
            s[2].1,
            s[1].0,
            x4,
            s[2].0,
            color,
        )
    }
}

/// Whether the corners of a flat-sided triangle come in the expected
/// order: the tip row not below the flat row, and the tip column between
/// the ends of the flat side. The fill routines draw the same triangle
/// whether or not this holds.
pub fn flat_triangle_in_order(top_y: i16, bot_y: i16, lx: i16, rx: i16, tx: i16) -> (ok: bool)
    ensures
        ok <==> top_y <= bot_y && lx <= tx && tx <= rx,
{
    top_y <= bot_y && lx <= tx && tx <= rx
}

/// Sets the columns `x0` up to, not including, `x1` of row `y` to `color`.
pub fn draw_line(screen: &mut Vec<u8>, width: u16, height: u16, y: i32, x0: i32, x1: i32, color: &RGB)
    requires
        old(screen).len() == 4 * (width * height),
    ensures
        final(screen).len() == old(screen).len(),
        final(screen)@ == spec_hline(
            old(screen)@,
            width as int,
            height as int,
            y as int,
            x0 as int,
            x1 as int,
            *color,
        ),
{
    let mut i: i32 = x0;
    while i < x1
        invariant
            screen.len() == 4 * (width * height),
            spec_hline(screen@, width as int, height as int, y as int, i as int, x1 as int, *color)
                == spec_hline(
                old(screen)@,
                width as int,
                height as int,
                y as int,
                x0 as int,
                x1 as int,
                *color,
            ),
        decreases x1 - i,
    {
        if i >= 0 && i < width as i32 && y >= 0 && y < height as i32 {
            assert(0 <= y * width + i < width * height) by (nonlinear_arith)
                requires
                    0 <= i < width,
                    0 <= y < height,
            ;
            let offset: usize = (y as usize * width as usize + i as usize) * 4;
            screen[offset] = color.r;
            screen[offset + 1] = color.g;
            screen[offset + 2] = color.b;
            screen[offset + 3] = 0xFF;
        }
        i += 1;
    }
}

fn trunc_i16<R: Scalar>(c: R) -> (r: i32)
    ensures
        r == spec_trunc_i16(c),
        i16::MIN <= r <= i16::MAX,
{
    let raw: i32 = c.trunc_i32();
    if raw < i16::MIN as i32 {
        i16::MIN as i32
    } else if raw > i16::MAX as i32 {
        i16::MAX as i32
    } else {
        raw
    }
}

fn clamp_to(v: i32, limit: u16) -> (r: i32)
    ensures
        r == spec_clamp(v as int, 0, limit as int),
{
    if v < 0 {
        0
    } else if v > limit as i32 {
        limit as i32
    } else {
        v
    }
}

fn fill_row<R: Scalar>(
    screen: &mut Vec<u8>,
    width: u16,
    height: u16,
    y: i32,
    curx1: R,
    curx2: R,
    color: &RGB,
)
    requires
        old(screen).len() == 4 * (width * height),
    ensures
        final(screen).len() == old(screen).len(),
        final(screen)@ == spec_hline(
            old(screen)@,
            width as int,
            height as int,
            y as int,
            spec_span_from(curx1, curx2, width as int),
            spec_span_to(curx1, curx2, width as int),
            *color,
        ),
{
    let c1: R;
    let c2: R;
    if curx1.gt(curx2) {
        c1 = curx2;
        c2 = curx1;
    } else {
        c1 = curx1;
        c2 = curx2;
    }
    let x1: i32 = clamp_to(trunc_i16(c1), width);
    let x2: i32 = clamp_to(trunc_i16(c2) + 1, width);
    draw_line(screen, width, height, y, x1, x2, color);
}

/// Fills the triangle with its tip at `(tx, top_y)` and its flat side in row
/// `bot_y`, from column `lx` to column `rx`.
pub fn fill_bottom_flat_triangle<R: Scalar>(
    screen: &mut Vec<u8>,
    width: u16,
    height: u16,
    top_y: i16,
    bot_y: i16,
    lx: i16,
    rx: i16,
    tx: i16,
    color: &RGB,
)
    requires
        old(screen).len() == 4 * (width * height),
    ensures
        final(screen).len() == old(screen).len(),
        final(screen)@ == spec_fill_bottom_flat_triangle::<R>(
            old(screen)@,
            width as int,
            height as int,
            top_y,
            bot_y,
            lx,
            rx,
            tx,
            *color,
        ),
{
    let rows = R::from_i32(bot_y as i32 - top_y as i32);
    let invslope1 = R::from_i32(lx as i32 - tx as i32).over(rows);
    let invslope2 = R::from_i32(rx as i32 - tx as i32).over(rows);

    let mut curx1 = R::from_i32(tx as i32);
    let mut curx2 = R::from_i32(tx as i32);

    let mut scan_line_y: i32 = top_y as i32;
    while scan_line_y <= bot_y as i32
        invariant
            screen.len() == 4 * (width * height),
            top_y <= scan_line_y <= i16::MAX + 1,
            spec_fill_down(
                screen@,
                width as int,
                height as int,
                scan_line_y as int,
                bot_y as int,
                curx1,
                curx2,
                invslope1,
                invslope2,
                *color,
            ) == spec_fill_bottom_flat_triangle::<R>(
                old(screen)@,
                width as int,
                height as int,
                top_y,
                bot_y,
                lx,
                rx,
                tx,
                *color,
            ),
        decreases bot_y - scan_line_y + 1,
    {
        fill_row(screen, width, height, scan_line_y, curx1, curx2, color);
        curx1 = curx1.plus(invslope1);
        curx2 = curx2.plus(invslope2);
        scan_line_y += 1;
    }
}

/// Fills the triangle with its tip at `(bx, bot_y)` and its flat side in row
/// `top_y`, from column `lx` to column `rx`.
pub fn fill_top_flat_triangle<R: Scalar>(
    screen: &mut Vec<u8>,
    width: u16,
    height: u16,
    top_y: i16,
    bot_y: i16,
    lx: i16,
    rx: i16,
    bx: i16,
    color: &RGB,
)
    requires
        old(screen).len() == 4 * (width * height),
    ensures
        final(screen).len() == old(screen).len(),
        final(screen)@ == spec_fill_top_flat_triangle::<R>(
            old(screen)@,
            width as int,
            height as int,
            top_y,
            bot_y,
            lx,
            rx,
            bx,
            *color,
        ),
{
    let rows = R::from_i32(bot_y as i32 - top_y as i32);
    let invslope1 = R::from_i32(bx as i32 - lx as i32).over(rows);
    let invslope2 = R::from_i32(bx as i32 - rx as i32).over(rows);

    let mut curx1 = R::from_i32(bx as i32);
    let mut curx2 = R::from_i32(bx as i32);

    let mut scan_line_y: i32 = bot_y as i32;
    while scan_line_y >= top_y as i32
        invariant
            screen.len() == 4 * (width * height),
            i16::MIN - 1 <= scan_line_y <= bot_y,
            spec_fill_up(
                screen@,
                width as int,
                height as int,
                scan_line_y as int,
                top_y as int,
                curx1,
                curx2,
                invslope1,
                invslope2,
                *color,
            ) == spec_fill_top_flat_triangle::<R>(
                old(screen)@,
                width as int,
                height as int,
                top_y,
                bot_y,
                lx,
                rx,
                bx,
                *color,
            ),
        decreases scan_line_y - top_y + 1,
    {
        fill_row(screen, width, height, scan_line_y, curx1, curx2, color);
        curx1 = curx1.minus(invslope1);
        curx2 = curx2.minus(invslope2);
        scan_line_y -= 1;
    }
}

fn sort_corners(c: [(i16, i16); 3]) -> (s: [(i16, i16); 3])
    ensures
        s == spec_sort_corners(c),
        s[0].1 <= s[1].1 <= s[2].1,
{
    let mut c1 = c[0];
    let mut c2 = c[1];
    let mut c3 = c[2];
    if c2.1 < c1.1 {
        let tmp = c1;
        c1 = c2;
        c2 = tmp;
    }
    if c3.1 < c1.1 {
        let tmp = c1;
        c1 = c3;
        c3 = tmp;
    }
    if c3.1 < c2.1 {
        let tmp = c2;
        c2 = c3;
        c3 = tmp;
    }
    [c1, c2, c3]
}

/// Fills the triangle with the corners `(x1, y1)`, `(x2, y2)`, `(x3, y3)`.
pub fn fill_triangle_1<R: Scalar>(
    screen: &mut Vec<u8>,
    width: u16,
    height: u16,
    x1: i16,
    y1: i16,
    x2: i16,
    y2: i16,
    x3: i16,
    y3: i16,
    color: &RGB,
)
    requires
        old(screen).len() == 4 * (width * height),
    ensures
        final(screen).len() == old(screen).len(),
        final(screen)@ == spec_fill_triangle_1::<R>(
            old(screen)@,
            width as int,
            height as int,
            [(x1, y1), (x2, y2), (x3, y3)],
            *color,
        ),
{
    let s = sort_corners([(x1, y1), (x2, y2), (x3, y3)]);
    if s[1].1 == s[2].1 {
        fill_bottom_flat_triangle::<R>(
            screen,
            width,
            height,
            s[0].1,
            s[1].1,
            s[1].0,
            s[2].0,
            s[0].0,
            color,
        );
    } else if s[0].1 == s[1].1 {
        fill_top_flat_triangle::<R>(
            screen,
            width,
            height,
            s[0].1,
            s[2].1,
            s[0].0,
            s[1].0,
            s[2].0,
            color,
        );
    } else {
        let portion = R::from_i32(s[1].1 as i32 - s[0].1 as i32).over(
            R::from_i32(s[2].1 as i32 - s[0].1 as i32),
        );
        let xdiff: i32 = s[2].0 as i32 - s[0].0 as i32;
        let x4: i32 = s[0].0 as i32 + trunc_i16(portion.times(R::from_i32(xdiff)));
        let x4: i16 = if x4 < i16::MIN as i32 {
            i16::MIN
        } else if x4 > i16::MAX as i32 {
            i16::MAX
        } else {
            x4 as i16
        };
        fill_bottom_flat_triangle::<R>(
            screen,
            width,
            height,
            s[0].1,
            s[1].1,
            s[1].0,
            x4,
            s[0].0,
            color,
        );
        fill_top_flat_triangle::<R>(
            screen,
            width,
            height,
            s[1].1,
            s[2].1,
            s[1].0,
            x4,
            s[2].0,
            color,
        );
    }
}

/// The pixel that a coordinate is filled at: the coordinate without its
/// fraction, brought into the range of `i16` and then into
/// `[0, size - 1]`.
pub open spec fn spec_fill_coord<R: Scalar>(c: R, size: u16) -> i16 {
    spec_clamp(spec_trunc_i16(c), 0, size - 1) as i16
}

fn fill_coord<R: Scalar>(c: R, size: u16) -> (r: i16)
    requires
        1 <= size <= i16::MAX,
    ensures
        r == spec_fill_coord(c, size),
{
    let t: i32 = trunc_i16(c);
    if t < 0 {
        0
    } else if t > size as i32 - 1 {
        (size - 1) as i16
    } else {
        t as i16
    }
}

/// Fills a projected triangle with one colour. Its corners are brought
/// into the image first.
pub fn fill_triangle_safe<R: Scalar>(
    screen: &mut Vec<u8>,
    width: u16,
    height: u16,
    triangle: &Triangle<R>,
    color: &RGB,
)
    requires
        old(screen).len() == 4 * (width * height),
        1 <= width <= i16::MAX,
        1 <= height <= i16::MAX,
    ensures
        final(screen).len() == old(screen).len(),
        final(screen)@ == spec_fill_triangle_1::<R>(
            old(screen)@,
            width as int,
            height as int,
            [
                (
                    spec_fill_coord(triangle.vertices[0].x, width),
                    spec_fill_coord(triangle.vertices[0].y, height),
                ),
                (
                    spec_fill_coord(triangle.vertices[1].x, width),
                    spec_fill_coord(triangle.vertices[1].y, height),
                ),
                (
                    spec_fill_coord(triangle.vertices[2].x, width),
                    spec_fill_coord(triangle.vertices[2].y, height),
                ),
            ],
            *color,
        ),
{
    fill_triangle_1::<R>(
        screen,
        width,
        height,
        fill_coord(triangle.vertices[0].x, width),
        fill_coord(triangle.vertices[0].y, height),
        fill_coord(triangle.vertices[1].x, width),
        fill_coord(triangle.vertices[1].y, height),
        fill_coord(triangle.vertices[2].x, width),
        fill_coord(triangle.vertices[2].y, height),
        color,
    );
}

/// The image with the three sides of a projected triangle drawn in white.
pub open spec fn spec_draw_triangle<R: Scalar>(
    image: Seq<u8>,
    width: int,
    height: int,
    triangle: Triangle<R>,
) -> Seq<u8> {
    let x0 = triangle.vertices[0].x.spec_trunc_i32() as int;
    let y0 = triangle.vertices[0].y.spec_trunc_i32() as int;
    let x1 = triangle.vertices[1].x.spec_trunc_i32() as int;
    let y1 = triangle.vertices[1].y.spec_trunc_i32() as int;
    let x2 = triangle.vertices[2].x.spec_trunc_i32() as int;
    let y2 = triangle.vertices[2].y.spec_trunc_i32() as int;
    spec_draw_line(
        spec_draw_line(
            spec_draw_line(image, width, height, x0, y0, x1, y1),
            width,
            height,
            x0,
            y0,
            x2,
            y2,
        ),
        width,
        height,
        x1,
        y1,
        x2,
        y2,
    )
}

/// Whether the three sides of a projected triangle can be walked.
pub open spec fn spec_sides_walkable<R: Scalar>(triangle: Triangle<R>) -> bool {
    let x0 = triangle.vertices[0].x.spec_trunc_i32() as int;
    let y0 = triangle.vertices[0].y.spec_trunc_i32() as int;
    let x1 = triangle.vertices[1].x.spec_trunc_i32() as int;
    let y1 = triangle.vertices[1].y.spec_trunc_i32() as int;
    let x2 = triangle.vertices[2].x.spec_trunc_i32() as int;
    let y2 = triangle.vertices[2].y.spec_trunc_i32() as int;
    &&& spec_line_walkable(x0, y0, x1, y1)
    &&& spec_line_walkable(x0, y0, x2, y2)
    &&& spec_line_walkable(x1, y1, x2, y2)
}

/// Draws the three sides of a projected triangle in white.
pub fn draw_triangle_safe<R: Scalar>(
    screen: &mut Vec<u8>,
    width: u16,
    height: u16,
    triangle: &Triangle<R>,
)
    requires
        old(screen).len() == 4 * (width * height),
        spec_sides_walkable(*triangle),
    ensures
        final(screen)@ == spec_draw_triangle(
            old(screen)@,
            width as int,
            height as int,
            *triangle,
        ),
{
    let x0 = triangle.vertices[0].x.trunc_i32();
    let y0 = triangle.vertices[0].y.trunc_i32();
    let x1 = triangle.vertices[1].x.trunc_i32();
    let y1 = triangle.vertices[1].y.trunc_i32();
    let x2 = triangle.vertices[2].x.trunc_i32();
    let y2 = triangle.vertices[2].y.trunc_i32();
    draw_line_safe(screen, width, height, x0, y0, x1, y1);
    draw_line_safe(screen, width, height, x0, y0, x2, y2);
    draw_line_safe(screen, width, height, x1, y1, x2, y2);
}

} // verus!
