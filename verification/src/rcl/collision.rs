//! Moving a camera through the world without passing through walls.
//!
//! The camera is a box of `RCL_CAMERA_COLL_RADIUS` to each side. A move is
//! checked at the corner of the box that leads the way: where that corner
//! would enter a square that is too high or too low, the move along that
//! axis ends at the side of the square.

use crate::rcl::cast::{spec_square_of, RCL_Renderer_Global};
use crate::rcl::render::RCL_Level;
use crate::rcl::types::{RCL_Camera, RCL_Vector2D};
use crate::rcl::units::{
    spec_rcl_clamp, RCL_Unit, RCL_clamp, RCL_divRoundDown, RCL_INFINITY, RCL_UNITS_PER_SQUARE,
};
use crate::rcl::world::RCL_ArrayFunction;
use vstd::prelude::*;

verus! {

pub const RCL_CAMERA_COLL_RADIUS: RCL_Unit = 8;

pub const RCL_CAMERA_COLL_HEIGHT_BELOW: RCL_Unit = 32;

pub const RCL_CAMERA_COLL_HEIGHT_ABOVE: RCL_Unit = 10;

pub const RCL_CAMERA_COLL_STEP_HEIGHT: RCL_Unit = 16;

/// The square of a coordinate, as the world's functions take it.
pub open spec fn spec_square16(c: RCL_Unit) -> i16 {
    spec_square_of(c) as i16
}

/// Whether the square `(s1, s2)` stops the camera. With heights, a square
/// stops it where its floor is above `bottom_limit` or, in a world with a
/// ceiling, its ceiling is below `top_limit`; a square that does neither
/// leaves `collides` as it was. Without heights, a square stops the camera
/// exactly where its floor is above the step height.
pub open spec fn spec_coll_check<F: RCL_ArrayFunction, C: RCL_ArrayFunction>(
    level: &RCL_Level<F, C>,
    collides: bool,
    s1: i16,
    s2: i16,
    compute_height: bool,
    bottom_limit: RCL_Unit,
    top_limit: RCL_Unit,
) -> bool {
    if compute_height {
        if level.floorHeightFunction.spec_at(s1, s2) > bottom_limit {
            true
        } else if level.ceilingHeightFunc is Some && level.spec_ceiling(s1, s2) < top_limit {
            true
        } else {
            collides
        }
    } else {
        level.floorHeightFunction.spec_at(s1, s2) > RCL_CAMERA_COLL_STEP_HEIGHT
    }
}

/// The check of a move along one axis: whether it collides, and the square
/// of the box's other leading edge along the other axis. `collides` and
/// `dir2_square2` are what the two hold before the check.
///
/// The square ahead is checked where the move enters a new square. Where
/// that does not stop the move, the square beside it, which the far edge of
/// the box reaches, is checked as well where it differs from `dir2_square`.
pub open spec fn spec_coll_check_ortho<F: RCL_ArrayFunction, C: RCL_ArrayFunction>(
    level: &RCL_Level<F, C>,
    collides: bool,
    dir2_square2: i16,
    dir_square: i16,
    dir_square_new: i16,
    dir2_dir: i16,
    dir2_square: i16,
    s1: i16,
    s2: i16,
    x: bool,
    compute_height: bool,
    bottom_limit: RCL_Unit,
    top_limit: RCL_Unit,
    corner_dir2: RCL_Unit,
) -> (bool, i16) {
    let ahead = if dir_square_new != dir_square {
        spec_coll_check(level, collides, s1, s2, compute_height, bottom_limit, top_limit)
    } else {
        collides
    };
    let beside: i16 = if !ahead {
        spec_square16(
            corner_dir2.wrapping_sub(
                (dir2_dir as i32).wrapping_mul(RCL_CAMERA_COLL_RADIUS).wrapping_mul(2),
            ),
        )
    } else {
        dir2_square2
    };
    let collides = if beside != dir2_square {
        if x {
            spec_coll_check(
                level,
                ahead,
                dir_square_new,
                beside,
                compute_height,
                bottom_limit,
                top_limit,
            )
        } else {
            spec_coll_check(
                level,
                ahead,
                beside,
                dir_square_new,
                compute_height,
                bottom_limit,
                top_limit,
            )
        }
    } else {
        ahead
    };
    (collides, beside)
}

/// The coordinate of the leading corner after a move along one axis: where
/// the move collides, the corner stands one unit before the side of its
/// square that lies ahead.
pub open spec fn spec_coll_handle(
    collides: bool,
    dir_square: i16,
    dir_dir: i16,
    corner_new: RCL_Unit,
) -> RCL_Unit {
    if collides {
        (dir_square as i32).wrapping_mul(RCL_UNITS_PER_SQUARE).wrapping_add(16i32).wrapping_add(
            (dir_dir as i32).wrapping_mul(16i32),
        ).wrapping_sub(dir_dir as i32)
    } else {
        corner_new
    }
}

/// The position of the camera after a move by `plane_offset` in the plane.
pub open spec fn spec_move_in_plane<F: RCL_ArrayFunction, C: RCL_ArrayFunction>(
    level: &RCL_Level<F, C>,
    camera: RCL_Camera,
    plane_offset: RCL_Vector2D,
    compute_height: bool,
) -> RCL_Vector2D {
    let x_dir: i16 = if plane_offset.x > 0 {
        1i16
    } else {
        -1i16
    };
    let y_dir: i16 = if plane_offset.y > 0 {
        1i16
    } else {
        -1i16
    };
    // BBox corner in the movement direction
    let corner = RCL_Vector2D {
        x: camera.position.x.wrapping_add((x_dir as i32).wrapping_mul(RCL_CAMERA_COLL_RADIUS)),
        y: camera.position.y.wrapping_add((y_dir as i32).wrapping_mul(RCL_CAMERA_COLL_RADIUS)),
    };
    let x_square = spec_square16(corner.x);
    let y_square = spec_square16(corner.y);
    let corner_new = RCL_Vector2D {
        x: corner.x.wrapping_add(plane_offset.x),
        y: corner.y.wrapping_add(plane_offset.y),
    };
    let x_square_new = spec_square16(corner_new.x);
    let y_square_new = spec_square16(corner_new.y);
    let bottom_limit = if compute_height {
        camera.height.wrapping_sub(RCL_CAMERA_COLL_HEIGHT_BELOW).wrapping_add(
            RCL_CAMERA_COLL_STEP_HEIGHT,
        )
    } else {
        -30000i32
    };
    let top_limit = if compute_height {
        camera.height.wrapping_add(RCL_CAMERA_COLL_HEIGHT_ABOVE)
    } else {
        RCL_INFINITY
    };
    let along_x = spec_coll_check_ortho(
        level,
        false,
        0,
        x_square,
        x_square_new,
        y_dir,
        y_square,
        x_square_new,
        y_square,
        true,
        compute_height,
        bottom_limit,
        top_limit,
        corner.y,
    );
    let along_y = spec_coll_check_ortho(
        level,
        false,
        0,
        y_square,
        y_square_new,
        x_dir,
        x_square,
        x_square,
        y_square_new,
        false,
        compute_height,
        bottom_limit,
        top_limit,
        corner.x,
    );
    // after a collision along an axis there is no collision at the corner
    let at_corner = !along_x.0 && !along_y.0 && x_square != x_square_new && y_square
        != y_square_new && spec_coll_check(
        level,
        false,
        x_square_new,
        y_square_new,
        compute_height,
        bottom_limit,
        top_limit,
    );
    let moved = if at_corner {
        corner
    } else {
        corner_new
    };
    RCL_Vector2D {
        x: spec_coll_handle(along_x.0, x_square, x_dir, moved.x).wrapping_sub(
            (x_dir as i32).wrapping_mul(RCL_CAMERA_COLL_RADIUS),
        ),
        y: spec_coll_handle(along_y.0, y_square, y_dir, moved.y).wrapping_sub(
            (y_dir as i32).wrapping_mul(RCL_CAMERA_COLL_RADIUS),
        ),
    }
}

/// The larger of two numbers.
pub open spec fn spec_max(a: RCL_Unit, b: RCL_Unit) -> RCL_Unit {
    if a >= b {
        a
    } else {
        b
    }
}

/// The smaller of two numbers.
pub open spec fn spec_min(a: RCL_Unit, b: RCL_Unit) -> RCL_Unit {
    if a <= b {
        a
    } else {
        b
    }
}

/// The height of a camera at `position` that would be at `height`: brought
/// between the highest floor and the lowest ceiling among the squares that
/// its box touches, with room below and above it.
pub open spec fn spec_settle_height<F: RCL_ArrayFunction, C: RCL_ArrayFunction>(
    level: &RCL_Level<F, C>,
    position: RCL_Vector2D,
    height: RCL_Unit,
) -> RCL_Unit {
    let x1 = spec_square16(position.x.wrapping_sub(RCL_CAMERA_COLL_RADIUS));
    let x2 = spec_square16(position.x.wrapping_add(RCL_CAMERA_COLL_RADIUS));
    let y1 = spec_square16(position.y.wrapping_sub(RCL_CAMERA_COLL_RADIUS));
    let y2 = spec_square16(position.y.wrapping_add(RCL_CAMERA_COLL_RADIUS));
    let f = |x: i16, y: i16| level.floorHeightFunction.spec_at(x, y);
    let c = |x: i16, y: i16| level.spec_ceiling(x, y);
    let b0 = f(x1, y1);
    let t0 = c(x1, y1);
    let b1 = if x2 != x1 {
        spec_max(b0, f(x2, y1))
    } else {
        b0
    };
    let t1 = if x2 != x1 {
        spec_min(t0, c(x2, y1))
    } else {
        t0
    };
    let b2 = if y2 != y1 {
        spec_max(b1, f(x1, y2))
    } else {
        b1
    };
    let t2 = if y2 != y1 {
        spec_min(t1, c(x1, y2))
    } else {
        t1
    };
    let b3 = if x2 != x1 && y2 != y1 {
        spec_max(b2, f(x2, y2))
    } else {
        b2
    };
    let t3 = if x2 != x1 && y2 != y1 {
        spec_min(t2, c(x2, y2))
    } else {
        t2
    };
    spec_rcl_clamp(
        height,
        b3.wrapping_add(RCL_CAMERA_COLL_HEIGHT_BELOW),
        t3.wrapping_sub(RCL_CAMERA_COLL_HEIGHT_ABOVE),
    )
}

/// The camera after `RCL_moveCameraWithCollision`.
pub open spec fn spec_move_camera<F: RCL_ArrayFunction, C: RCL_ArrayFunction>(
    level: &RCL_Level<F, C>,
    camera: RCL_Camera,
    plane_offset: RCL_Vector2D,
    height_offset: RCL_Unit,
    compute_height: bool,
    force: bool,
) -> RCL_Camera {
    let moves_in_plane = plane_offset.x != 0 || plane_offset.y != 0;
    let position = if moves_in_plane || force {
        spec_move_in_plane(level, camera, plane_offset, compute_height)
    } else {
        camera.position
    };
    let height = if compute_height && (moves_in_plane || height_offset != 0 || force) {
        spec_settle_height(level, position, camera.height.wrapping_add(height_offset))
    } else {
        camera.height
    };
    RCL_Camera { position, height, ..camera }
}

fn square16(c: RCL_Unit) -> (s: i16)
    ensures
        s == spec_square16(c),
{
    #[verifier::truncate]
    (RCL_divRoundDown(c, RCL_UNITS_PER_SQUARE) as i16)
}

/// If `dirCollides`, puts the corner one unit before the side of its
/// square that lies ahead.
#[allow(non_snake_case)]
pub fn collHandle(dirCollides: bool, dirSquare: i16, dirDir: i16, cornerNewDir: &mut RCL_Unit)
    ensures
        *final(cornerNewDir) == spec_coll_handle(dirCollides, dirSquare, dirDir, *old(cornerNewDir)),
{
    if dirCollides {
        *cornerNewDir = (dirSquare as RCL_Unit).wrapping_mul(RCL_UNITS_PER_SQUARE).wrapping_add(
            RCL_UNITS_PER_SQUARE / 2,
        ).wrapping_add((dirDir as RCL_Unit).wrapping_mul(RCL_UNITS_PER_SQUARE / 2)).wrapping_sub(
            dirDir as RCL_Unit,
        );
    }
}

/// Takes the heights of one more square into the limits: the floor into the
/// highest floor, the ceiling into the lowest ceiling. `height` is left
/// holding the ceiling.
#[allow(non_snake_case)]
pub fn checkSquares<F: RCL_ArrayFunction, C: RCL_ArrayFunction>(
    level: &RCL_Level<F, C>,
    xSquare: i16,
    ySquare: i16,
    height: &mut RCL_Unit,
    bottomLimit: &mut RCL_Unit,
    topLimit: &mut RCL_Unit,
)
    ensures
        *final(bottomLimit) == spec_max(
            *old(bottomLimit),
            level.floorHeightFunction.spec_at(xSquare, ySquare),
        ),
        *final(topLimit) == spec_min(*old(topLimit), level.spec_ceiling(xSquare, ySquare)),
        *final(height) == level.spec_ceiling(xSquare, ySquare),
{
    *height = level.floorHeightFunction.at(xSquare, ySquare);
    if *height > *bottomLimit {
        *bottomLimit = *height;
    }
    *height = level.ceiling(xSquare, ySquare);
    if *height < *topLimit {
        *topLimit = *height;
    }
}

impl<Roll: RCL_ArrayFunction> RCL_Renderer_Global<Roll> {
    /// Checks a single square for collision against the camera.
    #[allow(non_snake_case)]
    pub fn collCheck<F: RCL_ArrayFunction, C: RCL_ArrayFunction>(
        &self,
        level: &RCL_Level<F, C>,
        dirCollides: &mut bool,
        s1: i16,
        s2: i16,
        computeHeight: bool,
        bottomLimit: RCL_Unit,
        topLimit: RCL_Unit,
    )
        ensures
            *final(dirCollides) == spec_coll_check(
                level,
                *old(dirCollides),
                s1,
                s2,
                computeHeight,
                bottomLimit,
                topLimit,
            ),
    {
        if computeHeight {
            let height = level.floorHeightFunction.at(s1, s2);
            if height > bottomLimit {
                *dirCollides = true;
            } else if level.ceilingHeightFunc.is_some() {
                let height = level.ceiling(s1, s2);
                if height < topLimit {
                    *dirCollides = true;
                }
            }
        } else {
            *dirCollides = level.floorHeightFunction.at(s1, s2) > RCL_CAMERA_COLL_STEP_HEIGHT;
        }
    }

    /// Checks a collision against a non-diagonal square.
    #[allow(non_snake_case)]
    pub fn collCheckOrtho<F: RCL_ArrayFunction, C: RCL_ArrayFunction>(
        &self,
        level: &RCL_Level<F, C>,
        dirCollides: &mut bool,
        dirSquare: i16,
        dirSquareNew: i16,
        dir2Dir: i16,
        dir2Square: &mut i16,
        dir2Square2: &mut i16,
        s1: i16,
        s2: i16,
        x: bool,
        computeHeight: bool,
        bottomLimit: RCL_Unit,
        topLimit: RCL_Unit,
        corner_dir2: RCL_Unit,
    )
        ensures
            (*final(dirCollides), *final(dir2Square2)) == spec_coll_check_ortho(
                level,
                *old(dirCollides),
                *old(dir2Square2),
                dirSquare,
                dirSquareNew,
                dir2Dir,
                *old(dir2Square),
                s1,
                s2,
                x,
                computeHeight,
                bottomLimit,
                topLimit,
                corner_dir2,
            ),
            *final(dir2Square) == *old(dir2Square),
    {
        if dirSquareNew != dirSquare {
            self.collCheck(level, dirCollides, s1, s2, computeHeight, bottomLimit, topLimit);
        }
        if !*dirCollides {
            // now also check for coll on the neighbouring square
            *dir2Square2 = square16(
                corner_dir2.wrapping_sub(
                    (dir2Dir as RCL_Unit).wrapping_mul(RCL_CAMERA_COLL_RADIUS).wrapping_mul(2),
                ),
            );
        }
        if *dir2Square2 != *dir2Square {
            if x {
                self.collCheck(
                    level,
                    dirCollides,
                    dirSquareNew,
                    *dir2Square2,
                    computeHeight,
                    bottomLimit,
                    topLimit,
                );
            } else {
                self.collCheck(
                    level,
                    dirCollides,
                    *dir2Square2,
                    dirSquareNew,
                    computeHeight,
                    bottomLimit,
                    topLimit,
                );
            }
        }
    }

    /// Moves the camera and makes it collide with walls and, with
    /// `computeHeight`, with floors and ceilings as well.
    ///
    /// The camera moves by `planeOffset` in the plane and by `heightOffset`
    /// in height. Without `computeHeight` the heights of the world do not
    /// matter but for walls above the step height. With `force` the
    /// collisions are computed even where the camera stays in place.
    #[allow(non_snake_case)]
    pub fn RCL_moveCameraWithCollision<F: RCL_ArrayFunction, C: RCL_ArrayFunction>(
        &self,
        level: &RCL_Level<F, C>,
        camera: &mut RCL_Camera,
        planeOffset: RCL_Vector2D,
        heightOffset: RCL_Unit,
        computeHeight: bool,
        force: bool,
    )
        ensures
            *final(camera) == spec_move_camera(
                level,
                *old(camera),
                planeOffset,
                heightOffset,
                computeHeight,
                force,
            ),
    {
        let movesInPlane: bool = planeOffset.x != 0 || planeOffset.y != 0;

        if movesInPlane || force {
            let xDir: i16 = if planeOffset.x > 0 {
                1
            } else {
                -1
            };
            let yDir: i16 = if planeOffset.y > 0 {
                1
            } else {
                -1
            };

            // BBox corner in the movement direction
            let corner = RCL_Vector2D {
                x: camera.position.x.wrapping_add(
                    (xDir as RCL_Unit).wrapping_mul(RCL_CAMERA_COLL_RADIUS),
                ),
                y: camera.position.y.wrapping_add(
                    (yDir as RCL_Unit).wrapping_mul(RCL_CAMERA_COLL_RADIUS),
                ),
            };

            let mut xSquare: i16 = square16(corner.x);
            let mut ySquare: i16 = square16(corner.y);

            let mut cornerNew = RCL_Vector2D {
                x: corner.x.wrapping_add(planeOffset.x),
                y: corner.y.wrapping_add(planeOffset.y),
            };

            let xSquareNew: i16 = square16(cornerNew.x);
            let ySquareNew: i16 = square16(cornerNew.y);

            let bottomLimit: RCL_Unit;
            let topLimit: RCL_Unit;

            if computeHeight {
                bottomLimit = camera.height.wrapping_sub(RCL_CAMERA_COLL_HEIGHT_BELOW).wrapping_add(
                    RCL_CAMERA_COLL_STEP_HEIGHT,
                );
                topLimit = camera.height.wrapping_add(RCL_CAMERA_COLL_HEIGHT_ABOVE);
            } else {
                bottomLimit = -1 * RCL_INFINITY;
                topLimit = RCL_INFINITY;
            }
            let mut xCollides: bool = false;
            let mut ySquare2: i16 = 0;
            let ys: i16 = ySquare;
            self.collCheckOrtho(
                level,
                &mut xCollides,
                xSquare,
                xSquareNew,
                yDir,
                &mut ySquare,
                &mut ySquare2,
                xSquareNew,
                ys,
                true,
                computeHeight,
                bottomLimit,
                topLimit,
                corner.y,
            );

            let mut yCollides: bool = false;
            let mut xSquare2: i16 = 0;
            let xs: i16 = xSquare;
            self.collCheckOrtho(
                level,
                &mut yCollides,
                ySquare,
                ySquareNew,
                xDir,
                &mut xSquare,
                &mut xSquare2,
                xs,
                ySquareNew,
                false,
                computeHeight,
                bottomLimit,
                topLimit,
                corner.x,
            );

            if !xCollides && !yCollides {
                // after a collision along an axis there is no collision at the corner
                if xSquare != xSquareNew && ySquare != ySquareNew {
                    // corner?
                    let mut xyCollides: bool = false;
                    self.collCheck(
                        level,
                        &mut xyCollides,
                        xSquareNew,
                        ySquareNew,
                        computeHeight,
                        bottomLimit,
                        topLimit,
                    );

                    if xyCollides {
                        // the camera stays where it is rather than sliding along
                        cornerNew = corner;
                    }
                }
            }
            collHandle(xCollides, xSquare, xDir, &mut cornerNew.x);
            collHandle(yCollides, ySquare, yDir, &mut cornerNew.y);

            camera.position.x = cornerNew.x.wrapping_sub(
                (xDir as RCL_Unit).wrapping_mul(RCL_CAMERA_COLL_RADIUS),
            );
            camera.position.y = cornerNew.y.wrapping_sub(
                (yDir as RCL_Unit).wrapping_mul(RCL_CAMERA_COLL_RADIUS),
            );
        }
        if computeHeight && (movesInPlane || heightOffset != 0 || force) {
            camera.height = camera.height.wrapping_add(heightOffset);

            let xSquare1: i16 = square16(camera.position.x.wrapping_sub(RCL_CAMERA_COLL_RADIUS));
            let xSquare2: i16 = square16(camera.position.x.wrapping_add(RCL_CAMERA_COLL_RADIUS));
            let ySquare1: i16 = square16(camera.position.y.wrapping_sub(RCL_CAMERA_COLL_RADIUS));
            let ySquare2: i16 = square16(camera.position.y.wrapping_add(RCL_CAMERA_COLL_RADIUS));

            let mut bottomLimit: RCL_Unit = level.floorHeightFunction.at(xSquare1, ySquare1);
            let mut topLimit: RCL_Unit = level.ceiling(xSquare1, ySquare1);

            let mut height: RCL_Unit = 0;

            if xSquare2 != xSquare1 {
                checkSquares(level, xSquare2, ySquare1, &mut height, &mut bottomLimit, &mut topLimit);
            }
            if ySquare2 != ySquare1 {
                checkSquares(level, xSquare1, ySquare2, &mut height, &mut bottomLimit, &mut topLimit);
            }
            if xSquare2 != xSquare1 && ySquare2 != ySquare1 {
                checkSquares(level, xSquare2, ySquare2, &mut height, &mut bottomLimit, &mut topLimit);
            }
            camera.height = RCL_clamp(
                camera.height,
                bottomLimit.wrapping_add(RCL_CAMERA_COLL_HEIGHT_BELOW),
                topLimit.wrapping_sub(RCL_CAMERA_COLL_HEIGHT_ABOVE),
            );
        }
    }
}

} // verus!
