//! Straight lines, pixel by pixel.

use crate::frame::spec_put_pixel;
use vstd::prelude::*;

verus! {

/// `image` with the pixel in column `x` of row `y` set to opaque white. A
/// position outside of the image changes nothing.
pub open spec fn spec_white_pixel(image: Seq<u8>, width: int, height: int, x: int, y: int) -> Seq<
    u8,
> {
    if 0 <= x < width && 0 <= y < height {
        spec_put_pixel(image, y * width + x, seq![0xFFu8, 0xFFu8, 0xFFu8, 0xFFu8])
    } else {
        image
    }
}

/// The error term that a line starts with: half of the longer extent,
/// negative where the line is steeper than it is wide.
pub open spec fn spec_line_start_error(dx: int, dy: int) -> int {
    if dx > dy {
        dx / 2
    } else {
        -(dy / 2)
    }
}

/// Whether the walk takes a step along x from a position with the error
/// term `err`.
pub open spec fn spec_steps_x(err: int, dx: int) -> bool {
    err > -dx
}

/// Whether the walk takes a step along y from a position with the error
/// term `err`.
pub open spec fn spec_steps_y(err: int, dy: int) -> bool {
    err < dy
}

/// The image after the walk has drawn the pixel at `(x, y)` and the pixels
/// of `n` further steps. In each step the error term decides whether the
/// walk moves along x, along y, or both; a move along x takes `dy` from the
/// error term and a move along y adds `dx` to it.
pub open spec fn spec_walk_line(
    image: Seq<u8>,
    width: int,
    height: int,
    x: int,
    y: int,
    err: int,
    dx: int,
    dy: int,
    sx: int,
    sy: int,
    n: nat,
) -> Seq<u8>
    decreases n,
{
    let drawn = spec_white_pixel(image, width, height, x, y);
    if n == 0 {
        drawn
    } else {
        spec_walk_line(
            drawn,
            width,
            height,
            if spec_steps_x(err, dx) {
                x + sx
            } else {
                x
            },
            if spec_steps_y(err, dy) {
                y + sy
            } else {
                y
            },
            err - (if spec_steps_x(err, dx) {
                dy
            } else {
                0
            }) + (if spec_steps_y(err, dy) {
                dx
            } else {
                0
            }),
            dx,
            dy,
            sx,
            sy,
            (n - 1) as nat,
        )
    }
}

/// The image with the line from `(x0, y0)` to `(x1, y1)` drawn in opaque
/// white, both ends included: one pixel for each step along the longer
/// extent of the line. Pixels outside of the image are left out.
pub open spec fn spec_draw_line(
    image: Seq<u8>,
    width: int,
    height: int,
    x0: int,
    y0: int,
    x1: int,
    y1: int,
) -> Seq<u8> {
    let dx = if x1 - x0 < 0 {
        x0 - x1
    } else {
        x1 - x0
    };
    let dy = if y1 - y0 < 0 {
        y0 - y1
    } else {
        y1 - y0
    };
    spec_walk_line(
        image,
        width,
        height,
        x0,
        y0,
        spec_line_start_error(dx, dy),
        dx,
        dy,
        if x0 < x1 {
            1
        } else {
            -1
        },
        if y0 < y1 {
            1
        } else {
            -1
        },
        (if dx > dy {
            dx
        } else {
            dy
        }) as nat,
    )
}

/// Whether the walk from `(x0, y0)` to `(x1, y1)` stays within what the
/// machine can count: the extents along x and y together are at most
/// `i32::MAX`.
pub open spec fn spec_line_walkable(x0: int, y0: int, x1: int, y1: int) -> bool {
    (if x1 - x0 < 0 {
        x0 - x1
    } else {
        x1 - x0
    }) + (if y1 - y0 < 0 {
        y0 - y1
    } else {
        y1 - y0
    }) <= i32::MAX
}

fn white_pixel(image: &mut Vec<u8>, width: u16, height: u16, x: i32, y: i32)
    requires
        old(image).len() == 4 * (width * height),
    ensures
        final(image)@ == spec_white_pixel(
            old(image)@,
            width as int,
            height as int,
            x as int,
            y as int,
        ),
        final(image).len() == old(image).len(),
{
    if x >= 0 && x < width as i32 && y >= 0 && y < height as i32 {
        assert(0 <= y * width + x < width * height) by (nonlinear_arith)
            requires
                0 <= x < width,
                0 <= y < height,
        ;
        let offset: usize = (y as usize * width as usize + x as usize) * 4;
        image[offset] = 0xFF;
        image[offset + 1] = 0xFF;
        image[offset + 2] = 0xFF;
        image[offset + 3] = 0xFF;
    }
}

proof fn lemma_walk_stays_on_course(
    dx: int,
    dy: int,
    err0: int,
    i: int,
    j: int,
    err: int,
)
    requires
        0 <= dx,
        0 <= dy,
        err0 == spec_line_start_error(dx, dy),
        0 <= i,
        0 <= j,
        err == err0 - i * dy + j * dx,
        dx > dy ==> 0 <= err < dx && i <= dx,
        dx <= dy ==> -dy < err <= 0 && j <= dy && dy > 0,
    ensures
        i <= dx,
        j <= dy,
        dx > dy && i == dx ==> j == dy,
        dx <= dy && j == dy ==> i == dx,
{
    if dx > dy {
        assert(0 <= err0 < dx);
        assert(j <= dy && (i == dx ==> j == dy)) by (nonlinear_arith)
            requires
                0 <= dy < dx,
                0 <= err0 < dx,
                0 <= i <= dx,
                0 <= j,
                0 <= err0 - i * dy + j * dx < dx,
        ;
    } else {
        assert(-dy < err0 <= 0);
        assert(i <= dx && (j == dy ==> i == dx)) by (nonlinear_arith)
            requires
                0 <= dx <= dy,
                0 < dy,
                -dy < err0 <= 0,
                0 <= j <= dy,
                0 <= i,
                -dy < err0 - i * dy + j * dx <= 0,
        ;
    }
}

/// Draws the line from `(x0, y0)` to `(x1, y1)` in opaque white onto an
/// image of `width` by `height` pixels. The line may leave the image; the
/// part outside is not drawn.
pub fn draw_line_safe(
    screen: &mut Vec<u8>,
    width: u16,
    height: u16,
    x0: i32,
    y0: i32,
    x1: i32,
    y1: i32,
)
    requires
        old(screen).len() == 4 * (width * height),
        spec_line_walkable(x0 as int, y0 as int, x1 as int, y1 as int),
    ensures
        final(screen).len() == old(screen).len(),
        final(screen)@ == spec_draw_line(
            old(screen)@,
            width as int,
            height as int,
            x0 as int,
            y0 as int,
            x1 as int,
            y1 as int,
        ),
{
    let dx: i32 = if x1 - x0 < 0 {
        x0 - x1
    } else {
        x1 - x0
    };
    let dy: i32 = if y1 - y0 < 0 {
        y0 - y1
    } else {
        y1 - y0
    };
    let sx: i32 = if x0 < x1 {
        1
    } else {
        -1
    };
    let sy: i32 = if y0 < y1 {
        1
    } else {
        -1
    };
    let mut err: i32 = (if dx > dy {
        dx
    } else {
        -dy
    }) / 2;
    let ghost err0 = err as int;
    let ghost total: int = if dx > dy {
        dx as int
    } else {
        dy as int
    };
    let mut x: i32 = x0;
    let mut y: i32 = y0;
    let ghost mut i: int = 0;
    let ghost mut j: int = 0;
    assert(0 * dy == 0 && 0 * dx == 0) by (nonlinear_arith);

    loop
        invariant_except_break
            screen.len() == 4 * (width * height),
            0 <= dx,
            0 <= dy,
            dx + dy <= i32::MAX,
            sx == 1 || sx == -1,
            sy == 1 || sy == -1,
            x1 == x0 + sx * dx,
            y1 == y0 + sy * dy,
            err0 == spec_line_start_error(dx as int, dy as int),
            total == if dx > dy {
                dx as int
            } else {
                dy as int
            },
            0 <= i <= dx,
            0 <= j <= dy,
            x == x0 + sx * i,
            y == y0 + sy * j,
            err == err0 - i * dy + j * dx,
            dx > dy ==> 0 <= err < dx,
            dx <= dy && dy > 0 ==> -dy < err <= 0,
            dx <= dy && dy == 0 ==> err == 0,
            spec_walk_line(
                screen@,
                width as int,
                height as int,
                x as int,
                y as int,
                err as int,
                dx as int,
                dy as int,
                sx as int,
                sy as int,
                (if dx > dy {
                    dx - i
                } else {
                    dy - j
                }) as nat,
            ) == spec_draw_line(
                old(screen)@,
                width as int,
                height as int,
                x0 as int,
                y0 as int,
                x1 as int,
                y1 as int,
            ),
        ensures
            screen.len() == 4 * (width * height),
            screen@ == spec_draw_line(
                old(screen)@,
                width as int,
                height as int,
                x0 as int,
                y0 as int,
                x1 as int,
                y1 as int,
            ),
        decreases
                (if dx > dy {
                    dx - i
                } else {
                    dy - j
                }),
    {
        proof {
            if dy > 0 || dx > dy {
                lemma_walk_stays_on_course(dx as int, dy as int, err0, i, j, err as int);
            }
        }
        white_pixel(screen, width, height, x, y);

        if x == x1 && y == y1 {
            proof {
                assert(i == dx && j == dy) by (nonlinear_arith)
                    requires
                        x == x0 + sx * i,
                        x1 == x0 + sx * dx,
                        y == y0 + sy * j,
                        y1 == y0 + sy * dy,
                        x == x1,
                        y == y1,
                        sx == 1 || sx == -1,
                        sy == 1 || sy == -1,
                ;
            }
            break ;
        }
        proof {
            // not at the end: the longer extent still has steps left
            assert(i != dx || j != dy) by (nonlinear_arith)
                requires
                    x == x0 + sx * i,
                    x1 == x0 + sx * dx,
                    y == y0 + sy * j,
                    y1 == y0 + sy * dy,
                    x != x1 || y != y1,
            ;
        }
        let e2: i32 = err;
        let ghost i_before = i;
        let ghost j_before = j;
        if e2 > -dx {
            err -= dy;
            proof {
                assert(i < dx) by {
                    if dx <= dy {
                        // a step along x in a steep line: the walk along y is not over
                        if i == dx {
                            assert(j != dy);
                            assert(false) by (nonlinear_arith)
                                requires
                                    0 <= dx <= dy,
                                    0 < dy,
                                    0 <= j < dy,
                                    i == dx,
                                    -dy < err0 <= 0,
                                    e2 == err0 - i * dy + j * dx,
                                    e2 > -dx,
                            ;
                        }
                    }
                }
                assert(sx * (i + 1) == sx * i + sx) by (nonlinear_arith);
                assert((i + 1) * dy == i * dy + dy) by (nonlinear_arith);
                i = i + 1;
                assert(i32::MIN <= x0 + sx * i <= i32::MAX) by (nonlinear_arith)
                    requires
                        0 <= i <= dx,
                        sx == 1 || sx == -1,
                        x1 == x0 + sx * dx,
                        i32::MIN <= x0 <= i32::MAX,
                        i32::MIN <= x1 <= i32::MAX,
                ;
            }
            x += sx;
        }
        if e2 < dy {
            proof {
                assert(j < dy) by {
                    if dx > dy {
                        if j == dy {
                            assert(i_before != dx);
                            assert(false) by (nonlinear_arith)
                                requires
                                    0 <= dy < dx,
                                    0 <= i_before < dx,
                                    j == dy,
                                    0 <= err0 < dx,
                                    e2 == err0 - i_before * dy + j * dx,
                                    e2 < dy,
                            ;
                        }
                    }
                }
                assert(sy * (j + 1) == sy * j + sy) by (nonlinear_arith);
                assert((j + 1) * dx == j * dx + dx) by (nonlinear_arith);
                j = j + 1;
                assert(i32::MIN <= y0 + sy * j <= i32::MAX) by (nonlinear_arith)
                    requires
                        0 <= j <= dy,
                        sy == 1 || sy == -1,
                        y1 == y0 + sy * dy,
                        i32::MIN <= y0 <= i32::MAX,
                        i32::MIN <= y1 <= i32::MAX,
                ;
            }
            err += dx;
            y += sy;
        }
    }
}

} // verus!
