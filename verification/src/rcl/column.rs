//! Drawing one column of the view: runs of floor and ceiling pixels, and
//! runs of wall pixels.

use crate::arith::div_trunc;
use crate::rcl::cast::RCL_Renderer_Global;
use crate::rcl::screen::RCL_General;
use crate::rcl::types::{RCL_PixelInfo, RCL_Ray};
use crate::rcl::units::{
    spec_abs_val, spec_div, spec_non_zero, spec_rcl_clamp, RCL_Unit, RCL_absVal, RCL_clamp,
    RCL_nonZero, RCL_zeroClamp, _RCL_UNUSED,
};
use crate::rcl::world::{RCL_ArrayFunction, RCL_PixelFunction};
use crate::signum::NonZeroSignum;
use vstd::prelude::*;

verus! {

/// This says scaling of the fixed-point vertical texture coordinate
/// computation.
pub const RCL_TEXTURE_INTERPOLATION_SCALE: RCL_Unit = 1024;

/// Defines a multiplier of height difference when approximating floor and
/// ceiling depth.
pub const RCL_VERTICAL_DEPTH_MULTIPLY: RCL_Unit = 2;

/// What has been drawn: the pixels handed to the pixel function, in order,
/// and the renderer's state after them.
pub struct Canvas {
    pub drawn: Seq<RCL_PixelInfo>,
    pub general: RCL_General,
}

/// The canvas after one more pixel.
pub open spec fn spec_put<P: RCL_PixelFunction>(c: Canvas, info: RCL_PixelInfo) -> Canvas {
    Canvas { drawn: c.drawn.push(info), general: P::spec_general(c.general, info) }
}

/// Whether the pixel function `P` leaves the limits for casting rays as
/// they are.
pub open spec fn spec_keeps_constraints<P: RCL_PixelFunction>() -> bool {
    forall|g: RCL_General, info: RCL_PixelInfo|
        (#[trigger] P::spec_general(g, info)).defaultConstraints == g.defaultConstraints
}

/// Whether a run that moves by `increment` from row to row still has the
/// row `i` to draw before it is past `limit`.
pub open spec fn spec_in_run(i: int, limit: int, increment: int) -> bool {
    if increment < 0 {
        i >= limit
    } else {
        i <= limit
    }
}

/// Whether a value is a whole negative or positive unit.
pub open spec fn spec_unit(increment: int) -> bool {
    increment == 1 || increment == -1
}

/// The canvas and the pixel after a run of floor or ceiling pixels from the
/// row `i` to the row `limit`. With `do_depth` every pixel is one
/// `depth_increment` deeper than the one before; a depth below zero shows
/// as zero.
pub open spec fn spec_horizontal_run<P: RCL_PixelFunction>(
    canvas: Canvas,
    p: RCL_PixelInfo,
    i: int,
    limit: int,
    increment: int,
    do_depth: bool,
    depth: RCL_Unit,
    depth_increment: RCL_Unit,
) -> (Canvas, RCL_PixelInfo)
    decreases
            (if increment < 0 {
                i - limit + 1
            } else {
                limit - i + 1
            }),
    when spec_unit(increment)
{
    if !spec_in_run(i, limit, increment) {
        (canvas, p)
    } else {
        let deeper = depth.wrapping_add(depth_increment);
        let q = RCL_PixelInfo {
            position: crate::rcl::types::RCL_Vector2D { x: p.position.x, y: i as i32 },
            depth: if do_depth {
                if deeper >= 0 {
                    deeper
                } else {
                    0
                }
            } else {
                p.depth
            },
            ..p
        };
        spec_horizontal_run::<P>(
            spec_put::<P>(canvas, q),
            q,
            i + increment,
            limit,
            increment,
            do_depth,
            if do_depth {
                deeper
            } else {
                depth
            },
            depth_increment,
        )
    }
}

/// The row at which a run ends: `y_to` brought between the two limits.
pub open spec fn spec_run_limit(y_to: RCL_Unit, limit1: i16, limit2: i16) -> i16 {
    spec_rcl_clamp(y_to, limit1 as i32, limit2 as i32) as i16
}

/// The canvas and the pixel after `_RCL_drawHorizontalColumn`.
pub open spec fn spec_draw_horizontal_column<P: RCL_PixelFunction>(
    canvas: Canvas,
    p: RCL_PixelInfo,
    horizontal_depth_step: RCL_Unit,
    y_current: i16,
    y_to: RCL_Unit,
    limit1: i16,
    limit2: i16,
    vertical_offset: RCL_Unit,
    increment: int,
    compute_depth: bool,
    depth_increment_multiplier: i8,
) -> (Canvas, RCL_PixelInfo) {
    let start = RCL_PixelInfo { isWall: false, ..p };
    spec_horizontal_run::<P>(
        canvas,
        start,
        y_current + increment,
        spec_run_limit(y_to, limit1, limit2) as int,
        increment,
        compute_depth,
        if compute_depth {
            p.depth.wrapping_add(
                spec_abs_val(vertical_offset).wrapping_mul(RCL_VERTICAL_DEPTH_MULTIPLY),
            )
        } else {
            0
        },
        if compute_depth {
            (depth_increment_multiplier as i32).wrapping_mul(horizontal_depth_step)
        } else {
            0
        },
    )
}

/// One coordinate of the floor under a pixel: the camera's coordinate plus
/// the offset of the hit, scaled from the distance of the hit to the
/// distance `d` of the floor in the pixel's row.
pub open spec fn spec_floor_coord(
    camera: RCL_Unit,
    d: RCL_Unit,
    offset: RCL_Unit,
    hit_distance: RCL_Unit,
) -> RCL_Unit {
    camera.wrapping_add(spec_div(d.wrapping_mul(offset), hit_distance))
}

/// The canvas and the pixel after a run of floor pixels with texture
/// coordinates from the row `i` to the row `limit`. Every pixel is one
/// `depth_increment` deeper than the one before, and its texture
/// coordinates are the position of the floor under it.
pub open spec fn spec_textured_run<P: RCL_PixelFunction>(
    canvas: Canvas,
    p: RCL_PixelInfo,
    i: int,
    limit: int,
    increment: int,
    depth: RCL_Unit,
    depth_increment: RCL_Unit,
    distances: [RCL_Unit; 200],
    camera: crate::rcl::types::RCL_Vector2D,
    offset: crate::rcl::types::RCL_Vector2D,
    hit_distance: RCL_Unit,
) -> (Canvas, RCL_PixelInfo)
    decreases
            (if increment < 0 {
                i - limit + 1
            } else {
                limit - i + 1
            }),
    when spec_unit(increment)
{
    if !spec_in_run(i, limit, increment) {
        (canvas, p)
    } else {
        let deeper = depth.wrapping_add(depth_increment);
        let q = RCL_PixelInfo {
            position: crate::rcl::types::RCL_Vector2D { x: p.position.x, y: i as i32 },
            depth: if deeper >= 0 {
                deeper
            } else {
                0
            },
            texCoords: crate::rcl::types::RCL_Vector2D {
                x: spec_floor_coord(camera.x, distances[i], offset.x, hit_distance),
                y: spec_floor_coord(camera.y, distances[i], offset.y, hit_distance),
            },
            ..p
        };
        spec_textured_run::<P>(
            spec_put::<P>(canvas, q),
            q,
            i + increment,
            limit,
            increment,
            deeper,
            depth_increment,
            distances,
            camera,
            offset,
            hit_distance,
        )
    }
}

/// The canvas and the pixel after `_RCL_drawHorizontalColumn` with texture
/// coordinates.
pub open spec fn spec_draw_textured_column<P: RCL_PixelFunction>(
    canvas: Canvas,
    p: RCL_PixelInfo,
    horizontal_depth_step: RCL_Unit,
    distances: [RCL_Unit; 200],
    camera: crate::rcl::types::RCL_Vector2D,
    y_current: i16,
    y_to: RCL_Unit,
    limit1: i16,
    limit2: i16,
    vertical_offset: RCL_Unit,
    increment: int,
    depth_increment_multiplier: i8,
) -> (Canvas, RCL_PixelInfo) {
    spec_textured_run::<P>(
        canvas,
        RCL_PixelInfo { isWall: false, ..p },
        y_current + increment,
        spec_run_limit(y_to, limit1, limit2) as int,
        increment,
        p.depth.wrapping_add(
            spec_abs_val(vertical_offset).wrapping_mul(RCL_VERTICAL_DEPTH_MULTIPLY),
        ),
        (depth_increment_multiplier as i32).wrapping_mul(horizontal_depth_step),
        distances,
        camera,
        crate::rcl::types::RCL_Vector2D {
            x: p.hit.position.x.wrapping_sub(camera.x),
            y: p.hit.position.y.wrapping_sub(camera.y),
        },
        spec_non_zero(p.hit.distance),
    )
}

/// Whether every row of a run lies in the view, so that the distance of
/// the floor in the row is known.
pub open spec fn spec_rows_in_view(y_current: i16, limit: i16, increment: int) -> bool {
    spec_in_run(y_current + increment, limit as int, increment) ==> if increment < 0 {
        0 <= limit && y_current + increment < 200
    } else {
        0 <= y_current + increment && limit < 200
    }
}

/// What a wall run starts with: the step of the texture coordinate from row
/// to row and the texture coordinate of the first row, both scaled by
/// `RCL_TEXTURE_INTERPOLATION_SCALE`.
pub open spec fn spec_wall_start(
    y_current: i16,
    y_from: RCL_Unit,
    y_to: RCL_Unit,
    increment: int,
) -> (RCL_Unit, RCL_Unit) {
    let wall_length = spec_non_zero(spec_abs_val(y_to.wrapping_sub(y_from).wrapping_sub(1)));
    let wall_position = spec_abs_val(y_from.wrapping_sub(y_current as i32)).wrapping_sub(
        increment as i32,
    );
    let step = spec_div(RCL_UNITS_PER_SQUARE_SCALED, wall_length);
    let coord = wall_position.wrapping_mul(step);
    if increment < 0 {
        (step.wrapping_mul(-1i32), RCL_UNITS_PER_SQUARE_SCALED.wrapping_sub(coord))
    } else {
        (
            step,
            if coord >= 0 {
                coord
            } else {
                0
            },
        )
    }
}

/// The canvas and the pixel after a run of wall pixels from the row `i` to
/// the row `limit`. The texture coordinate of a pixel is `coord_scaled`
/// over the interpolation scale; it grows by `step_scaled` from row to row.
pub open spec fn spec_wall_run<P: RCL_PixelFunction>(
    canvas: Canvas,
    p: RCL_PixelInfo,
    i: int,
    limit: int,
    increment: int,
    coord_scaled: RCL_Unit,
    step_scaled: RCL_Unit,
) -> (Canvas, RCL_PixelInfo)
    decreases
            (if increment < 0 {
                i - limit + 1
            } else {
                limit - i + 1
            }),
    when spec_unit(increment)
{
    if !spec_in_run(i, limit, increment) {
        (canvas, p)
    } else {
        let q = RCL_PixelInfo {
            position: crate::rcl::types::RCL_Vector2D { x: p.position.x, y: i as i32 },
            texCoords: crate::rcl::types::RCL_Vector2D {
                x: p.texCoords.x,
                y: spec_div(coord_scaled, RCL_TEXTURE_INTERPOLATION_SCALE),
            },
            ..p
        };
        spec_wall_run::<P>(
            spec_put::<P>(canvas, q),
            q,
            i + increment,
            limit,
            increment,
            coord_scaled.wrapping_add(step_scaled),
            step_scaled,
        )
    }
}

/// The canvas and the pixel after `_RCL_drawWall`.
pub open spec fn spec_draw_wall<P: RCL_PixelFunction>(
    canvas: Canvas,
    p: RCL_PixelInfo,
    y_current: i16,
    y_from: RCL_Unit,
    y_to: RCL_Unit,
    limit1: i16,
    limit2: i16,
    increment: int,
) -> (Canvas, RCL_PixelInfo) {
    let start = spec_wall_start(y_current, y_from, y_to, increment);
    spec_wall_run::<P>(
        canvas,
        RCL_PixelInfo {
            isWall: true,
            texCoords: crate::rcl::types::RCL_Vector2D { x: p.texCoords.x, y: start.1 },
            ..p
        },
        y_current + increment,
        spec_run_limit(y_to, limit1, limit2) as int,
        increment,
        start.1,
        start.0,
    )
}

fn run_limit(y_to: RCL_Unit, limit1: i16, limit2: i16) -> (limit: i16)
    ensures
        limit == spec_run_limit(y_to, limit1, limit2),
{
    let c: i32 = RCL_clamp(y_to, limit1 as RCL_Unit, limit2 as RCL_Unit);
    c as i16
}

impl<Roll: RCL_ArrayFunction> RCL_Renderer_Global<Roll> {
    /// Helper for drawing floor or ceiling. Draws the rows after `yCurrent`
    /// up to the row `yTo`, which is first brought between `limit1` and
    /// `limit2`, and returns the row at which it ended.
    ///
    /// With `computeCoords` every pixel gets the position of the floor under
    /// it as its texture coordinates (and a depth, whatever `computeDepth`
    /// says). For that the distances of the floor have to be precomputed,
    /// the rows of the run have to lie in the view, and the distance of the
    /// pixel's hit must not be -1.
    #[allow(non_snake_case)]
    pub fn _RCL_drawHorizontalColumn<P: RCL_PixelFunction>(
        &self,
        pixelFunc: &mut P,
        general: &mut RCL_General,
        yCurrent: i16,
        yTo: RCL_Unit,
        limit1: i16,
        limit2: i16,
        verticalOffset: RCL_Unit,
        increment: NonZeroSignum,
        computeDepth: bool,
        computeCoords: bool,
        depthIncrementMultiplier: i8,
        ray: &RCL_Ray,
        pixelInfo: &mut RCL_PixelInfo,
    ) -> (limit: i16)
        requires
            computeCoords ==> {
                &&& self._RCL_floorPixelDistances is Some
                &&& old(pixelInfo).hit.distance != -1
                &&& spec_rows_in_view(
                    yCurrent,
                    spec_run_limit(yTo, limit1, limit2),
                    increment.spec_value(),
                )
            },
        ensures
            limit == spec_run_limit(yTo, limit1, limit2),
            ({
                let after = if computeCoords {
                    spec_draw_textured_column::<P>(
                        Canvas { drawn: old(pixelFunc).spec_drawn(), general: *old(general) },
                        *old(pixelInfo),
                        self._RCL_horizontalDepthStep,
                        self._RCL_floorPixelDistances->0,
                        self._RCL_camera.position,
                        yCurrent,
                        yTo,
                        limit1,
                        limit2,
                        verticalOffset,
                        increment.spec_value(),
                        depthIncrementMultiplier,
                    )
                } else {
                    spec_draw_horizontal_column::<P>(
                        Canvas { drawn: old(pixelFunc).spec_drawn(), general: *old(general) },
                        *old(pixelInfo),
                        self._RCL_horizontalDepthStep,
                        yCurrent,
                        yTo,
                        limit1,
                        limit2,
                        verticalOffset,
                        increment.spec_value(),
                        computeDepth,
                        depthIncrementMultiplier,
                    )
                };
                &&& final(pixelFunc).spec_drawn() == after.0.drawn
                &&& *final(general) == after.0.general
                &&& *final(pixelInfo) == after.1
            }),
            spec_keeps_constraints::<P>() ==> final(general).defaultConstraints == old(
                general,
            ).defaultConstraints,
            final(pixelInfo).position.x == old(pixelInfo).position.x,
    {
        _RCL_UNUSED(ray);

        let mut depthIncrement: RCL_Unit = 0;

        pixelInfo.isWall = false;

        let limit: i16 = run_limit(yTo, limit1, limit2);

        // this is for clamping depth to 0 so that we don't have negative depths
        let mut depth: RCL_Unit = 0;

        if computeCoords {
            self.textured_run(
                pixelFunc,
                general,
                yCurrent,
                limit,
                verticalOffset,
                increment,
                depthIncrementMultiplier,
                pixelInfo,
            );
            return limit;
        }
        let doDepth: bool = computeDepth;

        if doDepth {
            depth = pixelInfo.depth.wrapping_add(
                RCL_absVal(verticalOffset).wrapping_mul(RCL_VERTICAL_DEPTH_MULTIPLY),
            );
            depthIncrement = (depthIncrementMultiplier as RCL_Unit).wrapping_mul(
                self._RCL_horizontalDepthStep,
            );
        }
        let inc: i32 = increment.get() as i32;
        let negative: bool = increment.is_negative();
        let mut i: i32 = yCurrent as i32 + inc;
        let ghost target = spec_draw_horizontal_column::<P>(
            Canvas { drawn: old(pixelFunc).spec_drawn(), general: *old(general) },
            *old(pixelInfo),
            self._RCL_horizontalDepthStep,
            yCurrent,
            yTo,
            limit1,
            limit2,
            verticalOffset,
            increment.spec_value(),
            computeDepth,
            depthIncrementMultiplier,
        );
        while (negative && i >= limit as i32) || (!negative && i <= limit as i32)
            invariant
                inc == increment.spec_value(),
                spec_unit(inc as int),
                negative == (inc < 0),
                i16::MIN - 1 <= i <= i16::MAX + 1,
                spec_keeps_constraints::<P>() ==> general.defaultConstraints == old(
                    general,
                ).defaultConstraints,
                pixelInfo.position.x == old(pixelInfo).position.x,
                spec_horizontal_run::<P>(
                    Canvas { drawn: pixelFunc.spec_drawn(), general: *general },
                    *pixelInfo,
                    i as int,
                    limit as int,
                    inc as int,
                    doDepth,
                    depth,
                    depthIncrement,
                ) == target,
            decreases
                    (if inc < 0 {
                        i - limit + 1
                    } else {
                        limit - i + 1
                    }),
        {
            pixelInfo.position.y = i;
            if doDepth {
                depth = depth.wrapping_add(depthIncrement);
                pixelInfo.depth = RCL_zeroClamp(depth);
            }
            pixelFunc.pixel(general, pixelInfo);
            i += inc;
        }
        limit
    }

    fn textured_run<P: RCL_PixelFunction>(
        &self,
        pixelFunc: &mut P,
        general: &mut RCL_General,
        yCurrent: i16,
        limit: i16,
        verticalOffset: RCL_Unit,
        increment: NonZeroSignum,
        depthIncrementMultiplier: i8,
        pixelInfo: &mut RCL_PixelInfo,
    )
        requires
            self._RCL_floorPixelDistances is Some,
            old(pixelInfo).hit.distance != -1,
            !old(pixelInfo).isWall,
            spec_rows_in_view(yCurrent, limit, increment.spec_value()),
        ensures
            ({
                let after = spec_textured_run::<P>(
                    Canvas { drawn: old(pixelFunc).spec_drawn(), general: *old(general) },
                    *old(pixelInfo),
                    yCurrent + increment.spec_value(),
                    limit as int,
                    increment.spec_value(),
                    old(pixelInfo).depth.wrapping_add(
                        spec_abs_val(verticalOffset).wrapping_mul(RCL_VERTICAL_DEPTH_MULTIPLY),
                    ),
                    (depthIncrementMultiplier as i32).wrapping_mul(self._RCL_horizontalDepthStep),
                    self._RCL_floorPixelDistances->0,
                    self._RCL_camera.position,
                    crate::rcl::types::RCL_Vector2D {
                        x: old(pixelInfo).hit.position.x.wrapping_sub(self._RCL_camera.position.x),
                        y: old(pixelInfo).hit.position.y.wrapping_sub(self._RCL_camera.position.y),
                    },
                    spec_non_zero(old(pixelInfo).hit.distance),
                );
                &&& final(pixelFunc).spec_drawn() == after.0.drawn
                &&& *final(general) == after.0.general
                &&& *final(pixelInfo) == after.1
            }),
            spec_keeps_constraints::<P>() ==> final(general).defaultConstraints == old(
                general,
            ).defaultConstraints,
            final(pixelInfo).position.x == old(pixelInfo).position.x,
    {
        let distances: [RCL_Unit; 200] = match self._RCL_floorPixelDistances {
            Some(d) => d,
            None => [0;200],
        };
        let mut depth: RCL_Unit = pixelInfo.depth.wrapping_add(
            RCL_absVal(verticalOffset).wrapping_mul(RCL_VERTICAL_DEPTH_MULTIPLY),
        );
        let depthIncrement: RCL_Unit = (depthIncrementMultiplier as RCL_Unit).wrapping_mul(
            self._RCL_horizontalDepthStep,
        );
        let dx: RCL_Unit = pixelInfo.hit.position.x.wrapping_sub(self._RCL_camera.position.x);
        let dy: RCL_Unit = pixelInfo.hit.position.y.wrapping_sub(self._RCL_camera.position.y);
        let d2: RCL_Unit = RCL_nonZero(pixelInfo.hit.distance);

        let inc: i32 = increment.get() as i32;
        let negative: bool = increment.is_negative();
        let mut i: i32 = yCurrent as i32 + inc;
        let ghost target = spec_textured_run::<P>(
            Canvas { drawn: old(pixelFunc).spec_drawn(), general: *old(general) },
            *old(pixelInfo),
            yCurrent + increment.spec_value(),
            limit as int,
            increment.spec_value(),
            depth,
            depthIncrement,
            distances,
            self._RCL_camera.position,
            crate::rcl::types::RCL_Vector2D { x: dx, y: dy },
            d2,
        );
        while (negative && i >= limit as i32) || (!negative && i <= limit as i32)
            invariant
                inc == increment.spec_value(),
                spec_unit(inc as int),
                negative == (inc < 0),
                i16::MIN - 1 <= i <= i16::MAX + 1,
                d2 != 0,
                d2 != -1,
                distances == self._RCL_floorPixelDistances->0,
                spec_in_run(i as int, limit as int, inc as int) ==> 0 <= i < 200,
                negative ==> 0 <= limit || i < limit,
                !negative ==> limit < 200 || i > limit,
                spec_keeps_constraints::<P>() ==> general.defaultConstraints == old(
                    general,
                ).defaultConstraints,
                pixelInfo.position.x == old(pixelInfo).position.x,
                spec_textured_run::<P>(
                    Canvas { drawn: pixelFunc.spec_drawn(), general: *general },
                    *pixelInfo,
                    i as int,
                    limit as int,
                    inc as int,
                    depth,
                    depthIncrement,
                    distances,
                    self._RCL_camera.position,
                    crate::rcl::types::RCL_Vector2D { x: dx, y: dy },
                    d2,
                ) == target,
            decreases
                    (if inc < 0 {
                        i - limit + 1
                    } else {
                        limit - i + 1
                    }),
        {
            pixelInfo.position.y = i;
            depth = depth.wrapping_add(depthIncrement);
            pixelInfo.depth = RCL_zeroClamp(depth);

            let d: RCL_Unit = distances[i as usize];
            pixelInfo.texCoords.x = self._RCL_camera.position.x.wrapping_add(
                div_trunc(d.wrapping_mul(dx), d2),
            );
            pixelInfo.texCoords.y = self._RCL_camera.position.y.wrapping_add(
                div_trunc(d.wrapping_mul(dy), d2),
            );
            pixelFunc.pixel(general, pixelInfo);
            i += inc;
        }
    }

    /// Helper for drawing walls. Draws the rows after `yCurrent` up to the
    /// row `yTo`, which is first brought between `limit1` and `limit2`, and
    /// returns the row at which it ended. The wall spans the rows `yFrom`
    /// to `yTo`; its texture is stretched over them, whatever the wall's
    /// `height`.
    #[allow(non_snake_case)]
    pub fn _RCL_drawWall<P: RCL_PixelFunction>(
        pixelFunc: &mut P,
        general: &mut RCL_General,
        yCurrent: i16,
        yFrom: RCL_Unit,
        yTo: RCL_Unit,
        limit1: i16,
        limit2: i16,
        height: RCL_Unit,
        increment: NonZeroSignum,
        pixelInfo: &mut RCL_PixelInfo,
    ) -> (limit: i16)
        ensures
            limit == spec_run_limit(yTo, limit1, limit2),
            ({
                let after = spec_draw_wall::<P>(
                    Canvas { drawn: old(pixelFunc).spec_drawn(), general: *old(general) },
                    *old(pixelInfo),
                    yCurrent,
                    yFrom,
                    yTo,
                    limit1,
                    limit2,
                    increment.spec_value(),
                );
                &&& final(pixelFunc).spec_drawn() == after.0.drawn
                &&& *final(general) == after.0.general
                &&& *final(pixelInfo) == after.1
            }),
            spec_keeps_constraints::<P>() ==> final(general).defaultConstraints == old(
                general,
            ).defaultConstraints,
            final(pixelInfo).position.x == old(pixelInfo).position.x,
    {
        _RCL_UNUSED(height);

        pixelInfo.isWall = true;

        let limit: i16 = run_limit(yTo, limit1, limit2);

        let wallLength: RCL_Unit = RCL_nonZero(RCL_absVal(yTo.wrapping_sub(yFrom).wrapping_sub(1)));

        let inc: i32 = increment.get() as i32;
        let negative: bool = increment.is_negative();

        let wallPosition: RCL_Unit = RCL_absVal(
            yFrom.wrapping_sub(yCurrent as RCL_Unit),
        ).wrapping_sub(inc);

        let mut coordStepScaled: RCL_Unit = div_trunc(
            RCL_UNITS_PER_SQUARE_SCALED,
            wallLength,
        );

        pixelInfo.texCoords.y = wallPosition.wrapping_mul(coordStepScaled);

        if negative {
            coordStepScaled = coordStepScaled.wrapping_mul(-1);
            pixelInfo.texCoords.y = RCL_UNITS_PER_SQUARE_SCALED.wrapping_sub(pixelInfo.texCoords.y);
        } else {
            // with floor wall, don't start under 0
            pixelInfo.texCoords.y = RCL_zeroClamp(pixelInfo.texCoords.y);
        }
        let mut textureCoordScaled: RCL_Unit = pixelInfo.texCoords.y;

        let ghost target = spec_draw_wall::<P>(
            Canvas { drawn: old(pixelFunc).spec_drawn(), general: *old(general) },
            *old(pixelInfo),
            yCurrent,
            yFrom,
            yTo,
            limit1,
            limit2,
            increment.spec_value(),
        );
        let mut i: i32 = yCurrent as i32 + inc;
        while (negative && i >= limit as i32) || (!negative && i <= limit as i32)
            invariant
                inc == increment.spec_value(),
                spec_unit(inc as int),
                negative == (inc < 0),
                i16::MIN - 1 <= i <= i16::MAX + 1,
                spec_keeps_constraints::<P>() ==> general.defaultConstraints == old(
                    general,
                ).defaultConstraints,
                pixelInfo.position.x == old(pixelInfo).position.x,
                spec_wall_run::<P>(
                    Canvas { drawn: pixelFunc.spec_drawn(), general: *general },
                    *pixelInfo,
                    i as int,
                    limit as int,
                    inc as int,
                    textureCoordScaled,
                    coordStepScaled,
                ) == target,
            decreases
                    (if inc < 0 {
                        i - limit + 1
                    } else {
                        limit - i + 1
                    }),
        {
            pixelInfo.position.y = i;

            pixelInfo.texCoords.y = div_trunc(textureCoordScaled, RCL_TEXTURE_INTERPOLATION_SCALE);
            textureCoordScaled = textureCoordScaled.wrapping_add(coordStepScaled);

            pixelFunc.pixel(general, pixelInfo);

            i += inc;
        }
        limit
    }
}

/// The units of a square times the interpolation scale.
pub const RCL_UNITS_PER_SQUARE_SCALED: RCL_Unit = 32768;

} // verus!
