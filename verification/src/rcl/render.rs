//! Rendering a camera's view, column by column.

use crate::arith::{div_trunc, lemma_div_trunc_range};
use crate::rcl::cast::{
    lemma_wrapping_mul_exact, spec_cast_ray_multi_hit, spec_near, spec_ray_castable,
    spec_short_walk, spec_square_of, RCL_Renderer_Global, HITS_ARRAY_LIMIT, NEAR_HIT_DISTANCE,
};
use crate::rcl::column::{
    spec_draw_horizontal_column, spec_draw_wall, spec_keeps_constraints, spec_run_limit, Canvas,
};
use crate::rcl::screen::RCL_General;
use crate::rcl::types::{
    spec_angle_to_direction, RCL_Camera, RCL_HitResult, RCL_PixelInfo, RCL_Ray,
    RCL_RayConstraints, RCL_Vector2D, RCL_angleToDirection, CAMERA_RESOLUTION_X,
    CAMERA_RESOLUTION_Y,
};
use crate::rcl::units::{
    lemma_perspective_divisor, spec_can_divide, spec_div, spec_non_zero, spec_perspective_divisor,
    spec_perspective_scale, RCL_Unit, RCL_divRoundDown, RCL_nonZero, RCL_perspectiveScale,
    RCL_HORIZONTAL_FOV_HALF, RCL_INFINITY, RCL_UNITS_PER_SQUARE,
};
use crate::rcl::world::{
    RCL_ArrayFunction, RCL_PixelFunction, _RCL_floorCeilFunction, _floorHeightNotZeroFunction,
};
use crate::signum::NonZeroSignum;
use vstd::prelude::*;

verus! {

/// What depth the horizon has (the floor depth is only approximated with the
/// help of this constant).
pub const RCL_HORIZON_DEPTH: RCL_Unit = 352;

/// The last row of the view.
#[allow(non_upper_case_globals)]
pub const _RCL_camResYLimit: u16 = 199;

/// The middle row of the view.
#[allow(non_upper_case_globals)]
pub const halfResY: u16 = 100;

/// The largest height, in magnitude, of a floor, a ceiling or a camera in
/// a world that the renderer draws.
pub const MAX_WORLD_HEIGHT: RCL_Unit = 0x40_0000;

/// The heights of the world: the floor of every square, and the ceiling
/// where the world has one.
#[allow(non_camel_case_types)]
#[allow(non_snake_case)]
pub struct RCL_Level<F: RCL_ArrayFunction, C: RCL_ArrayFunction> {
    pub floorHeightFunction: F,
    pub ceilingHeightFunc: Option<C>,
}

impl<F: RCL_ArrayFunction, C: RCL_ArrayFunction> RCL_Level<F, C> {
    /// Every floor and every ceiling is at most `MAX_WORLD_HEIGHT` from
    /// zero.
    pub open spec fn spec_bounded(&self) -> bool {
        &&& forall|x: i16, y: i16|
            -MAX_WORLD_HEIGHT <= #[trigger] self.floorHeightFunction.spec_at(x, y)
                <= MAX_WORLD_HEIGHT
        &&& self.ceilingHeightFunc matches Some(c) ==> forall|x: i16, y: i16|
            -MAX_WORLD_HEIGHT <= #[trigger] c.spec_at(x, y) <= MAX_WORLD_HEIGHT
    }

    /// The ceiling height of a square; `RCL_INFINITY` without a ceiling.
    pub open spec fn spec_ceiling(&self, x: i16, y: i16) -> RCL_Unit {
        match self.ceilingHeightFunc {
            Some(c) => c.spec_at(x, y),
            None => RCL_INFINITY,
        }
    }

    /// The ceiling height of a square; `RCL_INFINITY` without a ceiling.
    pub fn ceiling(&self, x: i16, y: i16) -> (r: RCL_Unit)
        ensures
            r == self.spec_ceiling(x, y),
    {
        match &self.ceilingHeightFunc {
            Some(c) => c.at(x, y),
            None => RCL_INFINITY,
        }
    }
}

/// The size on screen of a height `z` of the world at the distance
/// `distance`: the height in rows at distance one, scaled by perspective.
pub open spec fn spec_screen_height(z: RCL_Unit, distance: RCL_Unit) -> RCL_Unit {
    spec_perspective_scale(
        spec_div(z.wrapping_mul(CAMERA_RESOLUTION_Y as i32), RCL_UNITS_PER_SQUARE),
        distance,
    )
}

/// Whether `z` is a height difference that the renderer can scale.
pub open spec fn spec_scalable(z: RCL_Unit) -> bool {
    -2 * MAX_WORLD_HEIGHT <= z <= 2 * MAX_WORLD_HEIGHT
}

/// Whether `distance` is zero or a distance of a near hit.
pub open spec fn spec_near_distance(distance: RCL_Unit) -> bool {
    -NEAR_HIT_DISTANCE <= distance <= NEAR_HIT_DISTANCE
}

/// A size of at most 2^26 in magnitude can be scaled at every near
/// distance.
pub proof fn lemma_scale_defined(size: RCL_Unit, distance: RCL_Unit)
    requires
        -0x3ff_ffff <= size <= 0x3ff_ffff,
        spec_near_distance(distance),
        distance != 0,
    ensures
        spec_can_divide(
            size.wrapping_mul(RCL_UNITS_PER_SQUARE),
            spec_perspective_divisor(distance),
        ),
        -0x7fff_ffff <= spec_perspective_scale(size, distance) <= 0x7fff_ffff,
        size.wrapping_mul(RCL_UNITS_PER_SQUARE) == size * 32,
        spec_perspective_scale(size, distance) == spec_div((size * 32) as i32, distance),
{
    lemma_perspective_divisor(distance);
    lemma_wrapping_mul_exact(size, 32);
    lemma_div_trunc_range(size * 32, distance as int);
}

fn screen_height(z: RCL_Unit, distance: RCL_Unit) -> (r: RCL_Unit)
    requires
        spec_scalable(z),
        spec_near_distance(distance),
    ensures
        r == spec_screen_height(z, distance),
{
    proof {
        lemma_wrapping_mul_exact(z, 200);
        lemma_div_trunc_range(z * 200, 32);
    }
    let size: i32 = z.wrapping_mul(CAMERA_RESOLUTION_Y as RCL_Unit) / RCL_UNITS_PER_SQUARE;
    proof {
        assert(-0x3ff_ffff <= size <= 0x3ff_ffff) by {
            if z >= 0 {
                assert((z * 200) / 32 <= 0x3ff_ffff);
            } else {
                assert((-(z * 200)) / 32 <= 0x3ff_ffff);
            }
        }
        if distance != 0 {
            lemma_scale_defined(size, distance);
        }
    }
    RCL_perspectiveScale(size, distance)
}

/// Where a column stands while it is drawn from its near end to the
/// horizon.
pub struct ColumnState {
    /// The last rows written from the bottom and from the top.
    pub f_pos_y: i16,
    pub c_pos_y: i16,
    /// Floor and ceiling height at the near side, relative to the camera.
    pub f_z1_world: RCL_Unit,
    pub c_z1_world: RCL_Unit,
    /// The pixel that is handed on.
    pub p: RCL_PixelInfo,
}

/// The view of the renderer as far as a column needs it.
pub struct ViewSetup {
    pub camera_height: RCL_Unit,
    pub middle_row: i16,
    pub f_depth_start: i16,
    pub c_depth_start: i16,
    pub depth_step: RCL_Unit,
    pub camera_height_screen: i16,
    pub has_roll: bool,
}

impl<Roll: RCL_ArrayFunction> RCL_Renderer_Global<Roll> {
    /// The renderer's view.
    pub open spec fn spec_view(&self) -> ViewSetup {
        ViewSetup {
            camera_height: self._RCL_camera.height,
            middle_row: self._RCL_middleRow,
            f_depth_start: self._RCL_fHorizontalDepthStart,
            c_depth_start: self._RCL_cHorizontalDepthStart,
            depth_step: self._RCL_horizontalDepthStep,
            camera_height_screen: self._RCL_cameraHeightScreen,
            has_roll: self._RCL_rollFunction is Some,
        }
    }
}

/// A column after the floor below the wall of `hit`, or below the horizon
/// where there is no hit, has been drawn.
pub open spec fn spec_complex_floor<P: RCL_PixelFunction>(
    v: ViewSetup,
    canvas: Canvas,
    st: ColumnState,
    p: RCL_PixelInfo,
    horizon: bool,
    f_z1_screen: RCL_Unit,
) -> (Canvas, ColumnState) {
    let shown = RCL_PixelInfo {
        isWall: false,
        isHorizon: horizon,
        isFloor: true,
        height: st.f_z1_world.wrapping_add(v.camera_height),
        wallHeight: 0,
        depth: (v.f_depth_start.wrapping_sub(st.f_pos_y) as i32).wrapping_mul(v.depth_step),
        ..p
    };
    let run = spec_draw_horizontal_column::<P>(
        canvas,
        shown,
        v.depth_step,
        st.f_pos_y,
        f_z1_screen,
        st.c_pos_y.wrapping_add(1),
        CAMERA_RESOLUTION_Y as i16,
        st.f_z1_world,
        -1,
        true,
        1,
    );
    let limit = spec_run_limit(
        f_z1_screen,
        st.c_pos_y.wrapping_add(1),
        CAMERA_RESOLUTION_Y as i16,
    );
    (
        run.0,
        ColumnState {
            f_pos_y: if st.f_pos_y > limit {
                limit
            } else {
                st.f_pos_y
            },
            p: run.1,
            ..st
        },
    )
}

/// A column after the ceiling above the wall, or above the horizon, has
/// been drawn.
pub open spec fn spec_complex_ceiling<P: RCL_PixelFunction>(
    v: ViewSetup,
    canvas: Canvas,
    st: ColumnState,
    c_z1_screen: RCL_Unit,
) -> (Canvas, ColumnState) {
    let shown = RCL_PixelInfo {
        isFloor: false,
        height: st.c_z1_world.wrapping_add(v.camera_height),
        depth: (st.c_pos_y.wrapping_sub(v.c_depth_start) as i32).wrapping_mul(v.depth_step),
        ..st.p
    };
    let run = spec_draw_horizontal_column::<P>(
        canvas,
        shown,
        v.depth_step,
        st.c_pos_y,
        c_z1_screen,
        -1i16,
        st.f_pos_y.wrapping_sub(1),
        st.c_z1_world,
        1,
        true,
        1,
    );
    let limit = spec_run_limit(c_z1_screen, -1i16, st.f_pos_y.wrapping_sub(1));
    (
        run.0,
        ColumnState {
            c_pos_y: if st.c_pos_y < limit {
                limit
            } else {
                st.c_pos_y
            },
            p: run.1,
            ..st
        },
    )
}

/// A column after the wall below the floor of the hit square has been
/// drawn.
pub open spec fn spec_complex_floor_wall<P: RCL_PixelFunction>(
    canvas: Canvas,
    st: ColumnState,
    f_z1_screen: RCL_Unit,
    f_z2_screen: RCL_Unit,
    f_z2_world: RCL_Unit,
) -> (Canvas, ColumnState) {
    if st.f_pos_y > 0 {
        let shown = RCL_PixelInfo { isFloor: true, ..st.p };
        let run = spec_draw_wall::<P>(
            canvas,
            shown,
            st.f_pos_y,
            f_z1_screen,
            f_z2_screen,
            st.c_pos_y.wrapping_add(1),
            CAMERA_RESOLUTION_Y as i16,
            -1,
        );
        let limit = spec_run_limit(
            f_z2_screen,
            st.c_pos_y.wrapping_add(1),
            CAMERA_RESOLUTION_Y as i16,
        );
        (
            run.0,
            ColumnState {
                f_pos_y: if st.f_pos_y > limit {
                    limit
                } else {
                    st.f_pos_y
                },
                f_z1_world: f_z2_world,
                p: run.1,
                ..st
            },
        )
    } else {
        (canvas, st)
    }
}

/// A column after the wall above the ceiling of the hit square has been
/// drawn.
pub open spec fn spec_complex_ceiling_wall<P: RCL_PixelFunction>(
    v: ViewSetup,
    canvas: Canvas,
    st: ColumnState,
    has_ceiling: bool,
    c_wall_height: RCL_Unit,
    c_z1_screen: RCL_Unit,
    c_z2_screen: RCL_Unit,
    c_z2_world: RCL_Unit,
) -> (Canvas, ColumnState) {
    if has_ceiling && st.c_pos_y < _RCL_camResYLimit as i16 {
        let shown = RCL_PixelInfo {
            isFloor: false,
            height: st.c_z1_world.wrapping_add(v.camera_height),
            wallHeight: c_wall_height,
            ..st.p
        };
        let run = spec_draw_wall::<P>(
            canvas,
            shown,
            st.c_pos_y,
            c_z1_screen,
            c_z2_screen,
            -1i16,
            st.f_pos_y.wrapping_sub(1),
            1,
        );
        let limit = spec_run_limit(c_z2_screen, -1i16, st.f_pos_y.wrapping_sub(1));
        (
            run.0,
            ColumnState {
                c_pos_y: if st.c_pos_y < limit {
                    limit
                } else {
                    st.c_pos_y
                },
                c_z1_world: c_z2_world,
                p: run.1,
                ..st
            },
        )
    } else {
        (canvas, st)
    }
}

/// A column after the part up to the wall of `hit` and that wall have been
/// drawn: the floor up to the wall, the ceiling down to the wall where the
/// world has a ceiling, the wall below the floor of the hit square and the
/// wall above its ceiling.
pub open spec fn spec_complex_hit<F: RCL_ArrayFunction, C: RCL_ArrayFunction, P: RCL_PixelFunction>(
    v: ViewSetup,
    level: &RCL_Level<F, C>,
    canvas: Canvas,
    st: ColumnState,
    hit: RCL_HitResult,
) -> (Canvas, ColumnState) {
    let distance = spec_non_zero(hit.distance);
    let sx = hit.square.x as i16;
    let sy = hit.square.y as i16;
    let has_ceiling = level.ceilingHeightFunc is Some;
    let f_wall_height = level.floorHeightFunction.spec_at(sx, sy);
    let f_z2_world = f_wall_height.wrapping_sub(v.camera_height);
    let f_z1_screen = (v.middle_row as i32).wrapping_sub(
        spec_screen_height(st.f_z1_world, distance),
    );
    let f_z2_screen = (v.middle_row as i32).wrapping_sub(spec_screen_height(f_z2_world, distance));
    let c_wall_height = if has_ceiling {
        level.spec_ceiling(sx, sy)
    } else {
        0
    };
    let c_z2_world = if has_ceiling {
        c_wall_height.wrapping_sub(v.camera_height)
    } else {
        0
    };
    let c_z1_screen = if has_ceiling {
        (v.middle_row as i32).wrapping_sub(spec_screen_height(st.c_z1_world, distance))
    } else {
        0
    };
    let c_z2_screen = if has_ceiling {
        (v.middle_row as i32).wrapping_sub(spec_screen_height(c_z2_world, distance))
    } else {
        0
    };
    let floor = spec_complex_floor::<P>(
        v,
        canvas,
        st,
        RCL_PixelInfo { hit, ..st.p },
        false,
        f_z1_screen,
    );
    let ceiling = if has_ceiling {
        spec_complex_ceiling::<P>(v, floor.0, floor.1, c_z1_screen)
    } else {
        floor
    };
    let st2 = ColumnState {
        p: RCL_PixelInfo {
            isWall: true,
            depth: distance,
            isFloor: true,
            texCoords: RCL_Vector2D { x: hit.textureCoord, y: ceiling.1.p.texCoords.y },
            height: ceiling.1.f_z1_world.wrapping_add(v.camera_height),
            wallHeight: f_wall_height,
            ..ceiling.1.p
        },
        ..ceiling.1
    };
    let floor_wall = spec_complex_floor_wall::<P>(
        ceiling.0,
        st2,
        f_z1_screen,
        f_z2_screen,
        f_z2_world,
    );
    spec_complex_ceiling_wall::<P>(
        v,
        floor_wall.0,
        floor_wall.1,
        has_ceiling,
        c_wall_height,
        c_z1_screen,
        c_z2_screen,
        c_z2_world,
    )
}

/// A column after its far end has been drawn: the floor up to the horizon
/// and the ceiling down to it.
pub open spec fn spec_complex_horizon<P: RCL_PixelFunction>(
    v: ViewSetup,
    canvas: Canvas,
    st: ColumnState,
    ray: RCL_Ray,
) -> (Canvas, ColumnState) {
    let floor = spec_complex_floor::<P>(
        v,
        canvas,
        st,
        RCL_PixelInfo { hit: st.p.hit.spec_infinite_hit(ray), ..st.p },
        true,
        v.middle_row as i32,
    );
    spec_complex_ceiling::<P>(v, floor.0, floor.1, (v.middle_row.wrapping_add(1)) as i32)
}

/// A column after the hits from number `j` on and the far end have been
/// drawn.
pub open spec fn spec_complex_from<F: RCL_ArrayFunction, C: RCL_ArrayFunction, P: RCL_PixelFunction>(
    v: ViewSetup,
    level: &RCL_Level<F, C>,
    canvas: Canvas,
    st: ColumnState,
    hits: Seq<RCL_HitResult>,
    ray: RCL_Ray,
    j: int,
) -> (Canvas, ColumnState)
    decreases hits.len() - j,
{
    if j >= hits.len() {
        spec_complex_horizon::<P>(v, canvas, st, ray)
    } else {
        let next = spec_complex_hit::<F, C, P>(v, level, canvas, st, hits[j]);
        spec_complex_from::<F, C, P>(v, level, next.0, next.1, hits, ray, j + 1)
    }
}

/// The state that a column of the complex view starts in.
pub open spec fn spec_complex_start(
    start_floor_height: RCL_Unit,
    start_ceil_height: RCL_Unit,
    x: u16,
) -> ColumnState {
    ColumnState {
        f_pos_y: CAMERA_RESOLUTION_Y as i16,
        c_pos_y: -1i16,
        f_z1_world: start_floor_height,
        c_z1_world: start_ceil_height,
        p: RCL_PixelInfo {
            position: RCL_Vector2D { x: x as i32, y: 0 },
            ..RCL_PixelInfo::spec_zeroed()
        },
    }
}

/// The canvas after a column of the complex view has been drawn.
pub open spec fn spec_column_complex<
    F: RCL_ArrayFunction,
    C: RCL_ArrayFunction,
    P: RCL_PixelFunction,
>(
    v: ViewSetup,
    start_floor_height: RCL_Unit,
    start_ceil_height: RCL_Unit,
    level: &RCL_Level<F, C>,
    canvas: Canvas,
    hits: Seq<RCL_HitResult>,
    x: u16,
    ray: RCL_Ray,
) -> Canvas {
    spec_complex_from::<F, C, P>(
        v,
        level,
        canvas,
        spec_complex_start(start_floor_height, start_ceil_height, x),
        hits,
        ray,
        0,
    ).0
}

/// Whether the renderer's state allows the heights of a column to be
/// scaled.
pub open spec fn spec_column_ready(st: ColumnState, camera_height: RCL_Unit) -> bool {
    &&& -MAX_WORLD_HEIGHT <= camera_height <= MAX_WORLD_HEIGHT
    &&& spec_scalable(st.f_z1_world)
    &&& spec_scalable(st.c_z1_world)
}

impl<Roll: RCL_ArrayFunction> RCL_Renderer_Global<Roll> {
    /// The renderer's view.
    pub fn view(&self) -> (v: ViewSetup)
        ensures
            v == self.spec_view(),
    {
        ViewSetup {
            camera_height: self._RCL_camera.height,
            middle_row: self._RCL_middleRow,
            f_depth_start: self._RCL_fHorizontalDepthStart,
            c_depth_start: self._RCL_cHorizontalDepthStart,
            depth_step: self._RCL_horizontalDepthStep,
            camera_height_screen: self._RCL_cameraHeightScreen,
            has_roll: self._RCL_rollFunction.is_some(),
        }
    }

    fn complex_floor<P: RCL_PixelFunction>(
        &self,
        pixelFunc: &mut P,
        general: &mut RCL_General,
        st: &mut ColumnState,
        horizon: bool,
        f_z1_screen: RCL_Unit,
        ray: &RCL_Ray,
    )
        ensures
            ({
                let after = spec_complex_floor::<P>(
                    self.spec_view(),
                    Canvas { drawn: old(pixelFunc).spec_drawn(), general: *old(general) },
                    *old(st),
                    old(st).p,
                    horizon,
                    f_z1_screen,
                );
                &&& final(pixelFunc).spec_drawn() == after.0.drawn
                &&& *final(general) == after.0.general
                &&& *final(st) == after.1
            }),
            spec_keeps_constraints::<P>() ==> final(general).defaultConstraints == old(
                general,
            ).defaultConstraints,
            final(st).f_z1_world == old(st).f_z1_world,
            final(st).c_z1_world == old(st).c_z1_world,
    {
        st.p.isWall = false;
        st.p.isHorizon = horizon;

        // draw floor until wall
        st.p.isFloor = true;
        st.p.height = st.f_z1_world.wrapping_add(self._RCL_camera.height);
        st.p.wallHeight = 0;
        st.p.depth = (self._RCL_fHorizontalDepthStart.wrapping_sub(st.f_pos_y) as RCL_Unit).wrapping_mul(
            self._RCL_horizontalDepthStep,
        );

        // the run may end outside of the screen
        let limit: i16 = self._RCL_drawHorizontalColumn(
            pixelFunc,
            general,
            st.f_pos_y,
            f_z1_screen,
            st.c_pos_y.wrapping_add(1),
            CAMERA_RESOLUTION_Y as i16,
            st.f_z1_world,
            NonZeroSignum::neg(),
            true,
            false,
            1,
            ray,
            &mut st.p,
        );

        if st.f_pos_y > limit {
            st.f_pos_y = limit;
        }
    }

    fn complex_ceiling<P: RCL_PixelFunction>(
        &self,
        pixelFunc: &mut P,
        general: &mut RCL_General,
        st: &mut ColumnState,
        c_z1_screen: RCL_Unit,
        ray: &RCL_Ray,
    )
        ensures
            ({
                let after = spec_complex_ceiling::<P>(
                    self.spec_view(),
                    Canvas { drawn: old(pixelFunc).spec_drawn(), general: *old(general) },
                    *old(st),
                    c_z1_screen,
                );
                &&& final(pixelFunc).spec_drawn() == after.0.drawn
                &&& *final(general) == after.0.general
                &&& *final(st) == after.1
            }),
            spec_keeps_constraints::<P>() ==> final(general).defaultConstraints == old(
                general,
            ).defaultConstraints,
            final(st).f_z1_world == old(st).f_z1_world,
            final(st).c_z1_world == old(st).c_z1_world,
    {
        // draw ceiling until wall
        st.p.isFloor = false;
        st.p.height = st.c_z1_world.wrapping_add(self._RCL_camera.height);
        st.p.depth = (st.c_pos_y.wrapping_sub(self._RCL_cHorizontalDepthStart) as RCL_Unit).wrapping_mul(
            self._RCL_horizontalDepthStep,
        );

        // the run may end outside of the screen
        let limit: i16 = self._RCL_drawHorizontalColumn(
            pixelFunc,
            general,
            st.c_pos_y,
            c_z1_screen,
            -1,
            st.f_pos_y.wrapping_sub(1),
            st.c_z1_world,
            NonZeroSignum::pos(),
            true,
            false,
            1,
            ray,
            &mut st.p,
        );

        if st.c_pos_y < limit {
            st.c_pos_y = limit;
        }
    }

    fn complex_floor_wall<P: RCL_PixelFunction>(
        pixelFunc: &mut P,
        general: &mut RCL_General,
        st: &mut ColumnState,
        f_z1_screen: RCL_Unit,
        f_z2_screen: RCL_Unit,
        f_z2_world: RCL_Unit,
    )
        ensures
            ({
                let after = spec_complex_floor_wall::<P>(
                    Canvas { drawn: old(pixelFunc).spec_drawn(), general: *old(general) },
                    *old(st),
                    f_z1_screen,
                    f_z2_screen,
                    f_z2_world,
                );
                &&& final(pixelFunc).spec_drawn() == after.0.drawn
                &&& *final(general) == after.0.general
                &&& *final(st) == after.1
            }),
            spec_keeps_constraints::<P>() ==> final(general).defaultConstraints == old(
                general,
            ).defaultConstraints,
            final(st).f_z1_world == old(st).f_z1_world || final(st).f_z1_world == f_z2_world,
            final(st).c_z1_world == old(st).c_z1_world,
    {
        // draw floor wall
        if st.f_pos_y > 0 {
            // still pixels left?
            st.p.isFloor = true;

            // the run may end outside of the screen
            let limit: i16 = Self::_RCL_drawWall(
                pixelFunc,
                general,
                st.f_pos_y,
                f_z1_screen,
                f_z2_screen,
                st.c_pos_y.wrapping_add(1),
                CAMERA_RESOLUTION_Y as i16,
                RCL_UNITS_PER_SQUARE,
                NonZeroSignum::neg(),
                &mut st.p,
            );

            if st.f_pos_y > limit {
                st.f_pos_y = limit;
            }
            // for the next iteration

            st.f_z1_world = f_z2_world;
        }
    }

    fn complex_ceiling_wall<P: RCL_PixelFunction>(
        &self,
        pixelFunc: &mut P,
        general: &mut RCL_General,
        st: &mut ColumnState,
        has_ceiling: bool,
        c_wall_height: RCL_Unit,
        c_z1_screen: RCL_Unit,
        c_z2_screen: RCL_Unit,
        c_z2_world: RCL_Unit,
    )
        ensures
            ({
                let after = spec_complex_ceiling_wall::<P>(
                    self.spec_view(),
                    Canvas { drawn: old(pixelFunc).spec_drawn(), general: *old(general) },
                    *old(st),
                    has_ceiling,
                    c_wall_height,
                    c_z1_screen,
                    c_z2_screen,
                    c_z2_world,
                );
                &&& final(pixelFunc).spec_drawn() == after.0.drawn
                &&& *final(general) == after.0.general
                &&& *final(st) == after.1
            }),
            spec_keeps_constraints::<P>() ==> final(general).defaultConstraints == old(
                general,
            ).defaultConstraints,
            final(st).f_z1_world == old(st).f_z1_world,
            final(st).c_z1_world == old(st).c_z1_world || final(st).c_z1_world == c_z2_world,
    {
        // draw ceiling wall
        if has_ceiling && st.c_pos_y < _RCL_camResYLimit as i16 {
            // pixels left?
            st.p.isFloor = false;
            st.p.height = st.c_z1_world.wrapping_add(self._RCL_camera.height);
            st.p.wallHeight = c_wall_height;

            // the run may end outside of the screen
            let limit: i16 = Self::_RCL_drawWall(
                pixelFunc,
                general,
                st.c_pos_y,
                c_z1_screen,
                c_z2_screen,
                -1,
                st.f_pos_y.wrapping_sub(1),
                RCL_UNITS_PER_SQUARE,
                NonZeroSignum::pos(),
                &mut st.p,
            );

            if st.c_pos_y < limit {
                st.c_pos_y = limit;
            }
            // for the next iteration

            st.c_z1_world = c_z2_world;
        }
    }

    fn complex_hit<F: RCL_ArrayFunction, C: RCL_ArrayFunction, P: RCL_PixelFunction>(
        &self,
        level: &RCL_Level<F, C>,
        pixelFunc: &mut P,
        general: &mut RCL_General,
        st: &mut ColumnState,
        hit: &RCL_HitResult,
        ray: &RCL_Ray,
    )
        requires
            level.spec_bounded(),
            spec_column_ready(*old(st), self._RCL_camera.height),
            spec_near(*hit),
        ensures
            ({
                let after = spec_complex_hit::<F, C, P>(
                    self.spec_view(),
                    level,
                    Canvas { drawn: old(pixelFunc).spec_drawn(), general: *old(general) },
                    *old(st),
                    *hit,
                );
                &&& final(pixelFunc).spec_drawn() == after.0.drawn
                &&& *final(general) == after.0.general
                &&& *final(st) == after.1
            }),
            spec_keeps_constraints::<P>() ==> final(general).defaultConstraints == old(
                general,
            ).defaultConstraints,
            spec_column_ready(*final(st), self._RCL_camera.height),
    {
        let distance: RCL_Unit = RCL_nonZero(hit.distance);
        st.p.hit = *hit;
        let sx: i16 = #[verifier::truncate]
        (hit.square.x as i16);
        let sy: i16 = #[verifier::truncate]
        (hit.square.y as i16);
        let has_ceiling: bool = level.ceilingHeightFunc.is_some();

        let fWallHeight: RCL_Unit = level.floorHeightFunction.at(sx, sy);
        let fZ2World: RCL_Unit = fWallHeight.wrapping_sub(self._RCL_camera.height);
        let fZ1Screen: RCL_Unit = (self._RCL_middleRow as RCL_Unit).wrapping_sub(
            screen_height(st.f_z1_world, distance),
        );
        let fZ2Screen: RCL_Unit = (self._RCL_middleRow as RCL_Unit).wrapping_sub(
            screen_height(fZ2World, distance),
        );

        let mut cWallHeight: RCL_Unit = 0;
        let mut cZ2World: RCL_Unit = 0;
        let mut cZ1Screen: RCL_Unit = 0;
        let mut cZ2Screen: RCL_Unit = 0;

        if has_ceiling {
            cWallHeight = level.ceiling(sx, sy);
            cZ2World = cWallHeight.wrapping_sub(self._RCL_camera.height);
            cZ1Screen = (self._RCL_middleRow as RCL_Unit).wrapping_sub(
                screen_height(st.c_z1_world, distance),
            );
            cZ2Screen = (self._RCL_middleRow as RCL_Unit).wrapping_sub(
                screen_height(cZ2World, distance),
            );
        }
        self.complex_floor(pixelFunc, general, st, false, fZ1Screen, ray);

        if has_ceiling {
            self.complex_ceiling(pixelFunc, general, st, cZ1Screen, ray);
        }
        // don't draw walls for horizon plane

        st.p.isWall = true;
        st.p.depth = distance;
        st.p.isFloor = true;
        st.p.texCoords.x = hit.textureCoord;
        st.p.height = st.f_z1_world.wrapping_add(self._RCL_camera.height);
        st.p.wallHeight = fWallHeight;

        Self::complex_floor_wall(pixelFunc, general, st, fZ1Screen, fZ2Screen, fZ2World);
        self.complex_ceiling_wall(
            pixelFunc,
            general,
            st,
            has_ceiling,
            cWallHeight,
            cZ1Screen,
            cZ2Screen,
            cZ2World,
        );
    }

    fn complex_horizon<P: RCL_PixelFunction>(
        &self,
        pixelFunc: &mut P,
        general: &mut RCL_General,
        st: &mut ColumnState,
        ray: &RCL_Ray,
    )
        ensures
            ({
                let after = spec_complex_horizon::<P>(
                    self.spec_view(),
                    Canvas { drawn: old(pixelFunc).spec_drawn(), general: *old(general) },
                    *old(st),
                    *ray,
                );
                &&& final(pixelFunc).spec_drawn() == after.0.drawn
                &&& *final(general) == after.0.general
                &&& *final(st) == after.1
            }),
            spec_keeps_constraints::<P>() ==> final(general).defaultConstraints == old(
                general,
            ).defaultConstraints,
    {
        let fZ1Screen: RCL_Unit = self._RCL_middleRow as RCL_Unit;
        let cZ1Screen: RCL_Unit = self._RCL_middleRow.wrapping_add(1) as RCL_Unit;
        st.p.hit._RCL_makeInfiniteHit(ray);
        self.complex_floor(pixelFunc, general, st, true, fZ1Screen, ray);
        self.complex_ceiling(pixelFunc, general, st, cZ1Screen, ray);
    }

    /// Draws one column of the complex view: from the camera outwards, hit
    /// by hit, the floor from the bottom of the screen upwards and the
    /// ceiling from the top downwards, with the walls between the levels;
    /// then the floor and the ceiling up to the horizon.
    #[allow(non_snake_case)]
    pub fn _RCL_columnFunctionComplex<
        F: RCL_ArrayFunction,
        C: RCL_ArrayFunction,
        P: RCL_PixelFunction,
    >(
        &self,
        level: &RCL_Level<F, C>,
        pixelFunc: &mut P,
        general: &mut RCL_General,
        hits: &Vec<RCL_HitResult>,
        hitCount: u8,
        x: u16,
        ray: RCL_Ray,
    )
        requires
            hitCount <= hits.len(),
            level.spec_bounded(),
            -MAX_WORLD_HEIGHT <= self._RCL_camera.height <= MAX_WORLD_HEIGHT,
            spec_scalable(self._RCL_startFloorHeight),
            spec_scalable(self._RCL_startCeil_Height),
            forall|k: int| 0 <= k < hitCount ==> spec_near(#[trigger] hits@[k]),
        ensures
            ({
                let after = spec_column_complex::<F, C, P>(
                    self.spec_view(),
                    self._RCL_startFloorHeight,
                    self._RCL_startCeil_Height,
                    level,
                    Canvas { drawn: old(pixelFunc).spec_drawn(), general: *old(general) },
                    hits@.take(hitCount as int),
                    x,
                    ray,
                );
                &&& final(pixelFunc).spec_drawn() == after.drawn
                &&& *final(general) == after.general
            }),
            spec_keeps_constraints::<P>() ==> final(general).defaultConstraints == old(
                general,
            ).defaultConstraints,
    {
        let mut p: RCL_PixelInfo = RCL_PixelInfo::zeroed();
        p.position.x = x as RCL_Unit;
        p.height = 0;
        p.wallHeight = 0;
        p.texCoords = RCL_Vector2D::zero();
        let mut st = ColumnState {
            // last written Y position, can never go backwards
            f_pos_y: CAMERA_RESOLUTION_Y as i16,
            c_pos_y: -1,
            // world coordinates (relative to camera height though)
            f_z1_world: self._RCL_startFloorHeight,
            c_z1_world: self._RCL_startCeil_Height,
            p,
        };
        let ghost shown = hits@.take(hitCount as int);
        let ghost target = spec_complex_from::<F, C, P>(
            self.spec_view(),
            level,
            Canvas { drawn: old(pixelFunc).spec_drawn(), general: *old(general) },
            st,
            shown,
            ray,
            0,
        );

        // we'll be simulatenously drawing the floor and the ceiling now
        let mut j: usize = 0;
        while j < hitCount as usize
            invariant
                j <= hitCount,
                hitCount <= hits.len(),
                shown == hits@.take(hitCount as int),
                level.spec_bounded(),
                spec_column_ready(st, self._RCL_camera.height),
                forall|k: int| 0 <= k < hitCount ==> spec_near(#[trigger] hits@[k]),
                spec_keeps_constraints::<P>() ==> general.defaultConstraints == old(
                    general,
                ).defaultConstraints,
                spec_complex_from::<F, C, P>(
                    self.spec_view(),
                    level,
                    Canvas { drawn: pixelFunc.spec_drawn(), general: *general },
                    st,
                    shown,
                    ray,
                    j as int,
                ) == target,
            decreases hitCount - j,
        {
            self.complex_hit(level, pixelFunc, general, &mut st, &hits[j], &ray);
            j += 1;
        }
        // extra iteration for horizon plane
        self.complex_horizon(pixelFunc, general, &mut st, &ray);
    }
}

/// The hit that a column of the simple view shows, and whether it shows a
/// wall at all. Without rolling doors that is the first hit. With them, a
/// ray that starts inside of a door square takes the next hit, and a ray
/// that passes a door that is rolled open takes the hit behind it.
pub open spec fn spec_simple_pick(has_roll: bool, hits: Seq<RCL_HitResult>) -> (RCL_HitResult, bool)
    recommends
        hits.len() > 0,
{
    let hit = hits[0];
    if !has_roll {
        (hit, true)
    } else if hit.arrayValue == 0 {
        // standing inside door square, looking out => move to the next hit
        if hits.len() > 1 {
            (hits[1], true)
        } else {
            (hit, false)
        }
    } else {
        // normal hit, check the door roll
        let tex_coord_mod = crate::arith::spec_rem_trunc(hit.textureCoord as int, 32);
        let unrolled = if hit.doorRoll >= 0 {
            hit.doorRoll > tex_coord_mod
        } else {
            tex_coord_mod > 32i32.wrapping_add(hit.doorRoll)
        };
        if !unrolled {
            (hit, true)
        } else if hits.len() > 1 {
            if hit.direction % 2 != hits[1].direction % 2 {
                // hit on the inner side
                (hits[1], true)
            } else if hits.len() > 2 {
                // hit on the opposite side
                (hits[2], true)
            } else {
                (hit, false)
            }
        } else {
            (hit, false)
        }
    }
}

/// The wall of a column of the simple view: its distance, its height on
/// screen and the row where it starts.
pub open spec fn spec_simple_wall<F: RCL_ArrayFunction>(
    v: ViewSetup,
    floor: &F,
    hit: RCL_HitResult,
    go_on: bool,
) -> (RCL_Unit, RCL_Unit, RCL_Unit) {
    if go_on {
        let dist = hit.distance;
        let world = floor.spec_at(hit.square.x as i16, hit.square.y as i16);
        let screen = spec_screen_height(world, dist);
        let normalized = if world != 0 {
            spec_div(RCL_UNITS_PER_SQUARE.wrapping_mul(screen), world)
        } else {
            0
        };
        let height_offset = spec_perspective_scale(v.camera_height_screen as i32, dist);
        (
            dist,
            screen,
            (v.middle_row as i32).wrapping_sub(screen).wrapping_add(height_offset).wrapping_add(
                normalized,
            ),
        )
    } else {
        (1, 0, v.middle_row as i32)
    }
}

/// The canvas after a column of the simple view has been drawn: the ceiling
/// down to the wall, the wall, and the floor below it.
pub open spec fn spec_column_simple<F: RCL_ArrayFunction, P: RCL_PixelFunction>(
    v: ViewSetup,
    floor: &F,
    canvas: Canvas,
    hits: Seq<RCL_HitResult>,
    x: u16,
    ray: RCL_Ray,
) -> Canvas {
    let blank = RCL_PixelInfo {
        position: RCL_Vector2D { x: x as i32, y: 0 },
        wallHeight: RCL_UNITS_PER_SQUARE,
        ..RCL_PixelInfo::spec_zeroed()
    };
    let pick = if hits.len() > 0 {
        spec_simple_pick(v.has_roll, hits)
    } else {
        (blank.hit.spec_infinite_hit(ray), false)
    };
    let wall = spec_simple_wall(v, floor, pick.0, pick.1);
    let shown = RCL_PixelInfo {
        hit: pick.0,
        isWall: false,
        isFloor: false,
        isHorizon: true,
        depth: 1,
        height: RCL_UNITS_PER_SQUARE,
        ..blank
    };
    let ceiling = spec_draw_horizontal_column::<P>(
        canvas,
        shown,
        v.depth_step,
        -1i16,
        wall.2,
        -1i16,
        v.middle_row,
        v.camera_height,
        1,
        true,
        1,
    );
    let y1 = spec_run_limit(wall.2, -1i16, v.middle_row);
    let coord = ceiling.1.hit.textureCoord.wrapping_sub(ceiling.1.hit.doorRoll);
    let wall_pixel = RCL_PixelInfo {
        isWall: true,
        isFloor: true,
        depth: wall.0,
        height: 0,
        hit: RCL_HitResult { textureCoord: coord, ..ceiling.1.hit },
        texCoords: RCL_Vector2D { x: coord, y: 0 },
        ..ceiling.1
    };
    let wall_run = spec_draw_wall::<P>(
        ceiling.0,
        wall_pixel,
        y1,
        wall.2,
        wall.2.wrapping_add(wall.1).wrapping_sub(1),
        -1i16,
        _RCL_camResYLimit as i16,
        1,
    );
    let limit = spec_run_limit(
        wall.2.wrapping_add(wall.1).wrapping_sub(1),
        -1i16,
        _RCL_camResYLimit as i16,
    );
    let y2: i16 = if y1 > limit {
        y1
    } else {
        limit
    };
    let y3: i16 = (if y2 as i32 > wall.2 {
        y2 as i32
    } else {
        wall.2
    }) as i16;
    let floor_pixel = RCL_PixelInfo {
        isWall: false,
        depth: (200i32.wrapping_sub(y3 as i32)).wrapping_mul(v.depth_step).wrapping_add(1),
        ..wall_run.1
    };
    spec_draw_horizontal_column::<P>(
        wall_run.0,
        floor_pixel,
        v.depth_step,
        y3,
        _RCL_camResYLimit as i32,
        -1i16,
        _RCL_camResYLimit as i16,
        v.camera_height,
        1,
        true,
        -1i8,
    ).0
}

/// The ray through column `i` of the view of `cam`: the two directions at
/// the edges of the view, interpolated. The sideways parts of the
/// directions are divided by the number of columns, the forward parts by
/// the number of rows.
pub open spec fn spec_column_ray(cam: RCL_Camera, i: int) -> RCL_Ray {
    let dir1 = spec_angle_to_direction(cam.direction.wrapping_sub(RCL_HORIZONTAL_FOV_HALF));
    let dir2 = spec_angle_to_direction(cam.direction.wrapping_add(RCL_HORIZONTAL_FOV_HALF));
    RCL_Ray {
        start: cam.position,
        direction: RCL_Vector2D {
            x: (dir1.x + crate::arith::spec_div_trunc(i * (dir2.x - dir1.x), 320)) as i32,
            y: (dir1.y + crate::arith::spec_div_trunc(i * (dir2.y - dir1.y), 200)) as i32,
        },
    }
}

/// The canvas after the columns from `i` on have been drawn. Each column
/// casts its ray with the limits that the renderer's state holds when the
/// column before it is done.
pub open spec fn spec_cast_rays<
    F: RCL_ArrayFunction,
    C: RCL_ArrayFunction,
    T: RCL_ArrayFunction,
    P: RCL_PixelFunction,
    Roll: RCL_ArrayFunction,
>(
    complex: bool,
    g: &RCL_Renderer_Global<Roll>,
    level: &RCL_Level<F, C>,
    type_func: Option<&T>,
    canvas: Canvas,
    cam: RCL_Camera,
    i: int,
) -> Canvas
    decreases 320 - i,
{
    if i >= 320 {
        canvas
    } else {
        let ray = spec_column_ray(cam, i);
        let max_steps = canvas.general.defaultConstraints.maxSteps as int;
        let next = if complex {
            spec_column_complex::<F, C, P>(
                g.spec_view(),
                g._RCL_startFloorHeight,
                g._RCL_startCeil_Height,
                level,
                canvas,
                spec_cast_ray_multi_hit(
                    &(_RCL_floorCeilFunction {
                        floor: &level.floorHeightFunction,
                        ceiling: match level.ceilingHeightFunc {
                            Some(c) => Some(&c),
                            None => None,
                        },
                    }),
                    type_func,
                    g._RCL_rollFunction,
                    ray,
                    max_steps,
                    HITS_ARRAY_LIMIT as int,
                ),
                i as u16,
                ray,
            )
        } else {
            spec_column_simple::<F, P>(
                g.spec_view(),
                &level.floorHeightFunction,
                canvas,
                spec_cast_ray_multi_hit(
                    &(_floorHeightNotZeroFunction { floor: &level.floorHeightFunction }),
                    type_func,
                    g._RCL_rollFunction,
                    ray,
                    max_steps,
                    HITS_ARRAY_LIMIT as int,
                ),
                i as u16,
                ray,
            )
        };
        spec_cast_rays::<F, C, T, P, Roll>(complex, g, level, type_func, next, cam, i + 1)
    }
}

/// A ray whose direction has components of at most 2^20 in magnitude can be
/// cast.
pub proof fn lemma_castable(ray: RCL_Ray)
    requires
        -0x10_0000 <= ray.direction.x <= 0x10_0000,
        -0x10_0000 <= ray.direction.y <= 0x10_0000,
    ensures
        spec_ray_castable(ray),
{
    let dx = crate::rcl::units::spec_abs_val(ray.direction.x.wrapping_sub(0));
    let dy = crate::rcl::units::spec_abs_val(ray.direction.y.wrapping_sub(0));
    lemma_div_trunc_range(dx as int, 2);
    lemma_div_trunc_range(dy as int, 2);
    let len = ray.direction.spec_len();
    assert(0 <= len <= 0x18_0000);
    lemma_wrapping_mul_exact(len, 32);
}

/// Whether the renderer can draw the view: the world and the camera are of
/// moderate height, the camera is within 2^24 units of the origin, rays
/// take at most 100 steps, and the pixel function does not change that.
pub open spec fn spec_can_render<F: RCL_ArrayFunction, C: RCL_ArrayFunction, P: RCL_PixelFunction>(
    level: &RCL_Level<F, C>,
    general: RCL_General,
    cam: RCL_Camera,
) -> bool {
    &&& level.spec_bounded()
    &&& -MAX_WORLD_HEIGHT <= cam.height <= MAX_WORLD_HEIGHT
    &&& -0x100_0000 <= cam.position.x <= 0x100_0000
    &&& -0x100_0000 <= cam.position.y <= 0x100_0000
    &&& general.defaultConstraints.maxSteps <= 100
    &&& spec_keeps_constraints::<P>()
}

impl<Roll: RCL_ArrayFunction> RCL_Renderer_Global<Roll> {
    fn simple_pick(&self, hits: &Vec<RCL_HitResult>, hitCount: u8) -> (r: (RCL_HitResult, bool))
        requires
            0 < hitCount <= hits.len(),
        ensures
            r == spec_simple_pick(self._RCL_rollFunction is Some, hits@.take(hitCount as int)),
            exists|k: int| 0 <= k < hitCount && r.0 == hits@[k],
    {
        let n: usize = hitCount as usize;
        let mut hit: RCL_HitResult = hits[0];
        let mut goOn: bool = true;

        if self._RCL_rollFunction.is_some() {
            if hit.arrayValue == 0 {
                // standing inside door square, looking out => move to the next hit
                if n > 1 {
                    hit = hits[1];
                } else {
                    goOn = false;
                }
            } else {
                // normal hit, check the door roll
                let texCoordMod: RCL_Unit = hit.textureCoord % RCL_UNITS_PER_SQUARE;

                let unrolled: bool = if hit.doorRoll >= 0 {
                    hit.doorRoll > texCoordMod
                } else {
                    texCoordMod > RCL_UNITS_PER_SQUARE.wrapping_add(hit.doorRoll)
                };

                if unrolled {
                    goOn = false;

                    if n > 1 {
                        // a hit on leaving the square
                        if hit.direction % 2 != hits[1].direction % 2 {
                            // hit on the inner side
                            hit = hits[1];
                            goOn = true;
                        } else if n > 2 {
                            // hit on the opposite side
                            hit = hits[2];
                            goOn = true;
                        }
                    }
                }
            }
        }
        (hit, goOn)
    }

    fn simple_wall<F: RCL_ArrayFunction>(&self, floor: &F, hit: &RCL_HitResult, goOn: bool) -> (r: (
        RCL_Unit,
        RCL_Unit,
        RCL_Unit,
    ))
        requires
            goOn ==> spec_near(*hit),
            forall|x: i16, y: i16|
                -MAX_WORLD_HEIGHT <= #[trigger] floor.spec_at(x, y) <= MAX_WORLD_HEIGHT,
        ensures
            r == spec_simple_wall(self.spec_view(), floor, *hit, goOn),
    {
        if goOn {
            let dist: RCL_Unit = hit.distance;

            let wallHeightWorld: RCL_Unit = floor.at(
                #[verifier::truncate]
                (hit.square.x as i16),
                #[verifier::truncate]
                (hit.square.y as i16),
            );

            let wallHeightScreen: RCL_Unit = screen_height(wallHeightWorld, dist);

            proof {
                if wallHeightWorld == -1 {
                    // the one divisor that cannot divide every number
                    lemma_wrapping_mul_exact(-1i32, 200);
                    assert(spec_div((-200i32), 32) == -6);
                    if dist != 0 {
                        lemma_scale_defined(-6i32, dist);
                        lemma_div_trunc_range(-192, dist as int);
                    }
                    lemma_wrapping_mul_exact(32, wallHeightScreen);
                }
            }
            let RCL_normalizedWallHeight: RCL_Unit = if wallHeightWorld != 0 {
                div_trunc(RCL_UNITS_PER_SQUARE.wrapping_mul(wallHeightScreen), wallHeightWorld)
            } else {
                0
            };

            proof {
                if dist != 0 {
                    lemma_scale_defined(self._RCL_cameraHeightScreen as i32, dist);
                }
            }
            let heightOffset: RCL_Unit = RCL_perspectiveScale(
                self._RCL_cameraHeightScreen as RCL_Unit,
                dist,
            );

            (
                dist,
                wallHeightScreen,
                (self._RCL_middleRow as RCL_Unit).wrapping_sub(wallHeightScreen).wrapping_add(
                    heightOffset,
                ).wrapping_add(RCL_normalizedWallHeight),
            )
        } else {
            (1, 0, self._RCL_middleRow as RCL_Unit)
        }
    }

    /// Draws one column of the simple view: the ceiling, one wall and the
    /// floor.
    #[allow(non_snake_case)]
    pub fn _RCL_columnFunctionSimple<F: RCL_ArrayFunction, P: RCL_PixelFunction>(
        &self,
        floor: &F,
        pixelFunc: &mut P,
        general: &mut RCL_General,
        hits: &Vec<RCL_HitResult>,
        hitCount: u8,
        x: u16,
        ray: RCL_Ray,
    )
        requires
            hitCount <= hits.len(),
            forall|x: i16, y: i16|
                -MAX_WORLD_HEIGHT <= #[trigger] floor.spec_at(x, y) <= MAX_WORLD_HEIGHT,
            forall|k: int| 0 <= k < hitCount ==> spec_near(#[trigger] hits@[k]),
        ensures
            ({
                let after = spec_column_simple::<F, P>(
                    self.spec_view(),
                    floor,
                    Canvas { drawn: old(pixelFunc).spec_drawn(), general: *old(general) },
                    hits@.take(hitCount as int),
                    x,
                    ray,
                );
                &&& final(pixelFunc).spec_drawn() == after.drawn
                &&& *final(general) == after.general
            }),
            spec_keeps_constraints::<P>() ==> final(general).defaultConstraints == old(
                general,
            ).defaultConstraints,
    {
        let mut p = RCL_PixelInfo::zeroed();
        p.position.x = x as RCL_Unit;
        p.wallHeight = RCL_UNITS_PER_SQUARE;

        let mut goOn: bool = false;
        if hitCount > 0 {
            let (hit, go) = self.simple_pick(hits, hitCount);
            p.hit = hit;
            goOn = go;
        } else {
            p.hit._RCL_makeInfiniteHit(&ray);
        }
        let (dist, wallHeightScreen, wallStart) = self.simple_wall(floor, &p.hit, goOn);

        // draw ceiling
        p.isWall = false;
        p.isFloor = false;
        p.isHorizon = true;
        p.depth = 1;
        p.height = RCL_UNITS_PER_SQUARE;

        let mut y: i16 = self._RCL_drawHorizontalColumn(
            pixelFunc,
            general,
            -1,
            wallStart,
            -1,
            self._RCL_middleRow,
            self._RCL_camera.height,
            NonZeroSignum::pos(),
            true,
            false,
            1,
            &ray,
            &mut p,
        );

        // draw wall
        p.isWall = true;
        p.isFloor = true;
        p.depth = dist;
        p.height = 0;

        p.hit.textureCoord = p.hit.textureCoord.wrapping_sub(p.hit.doorRoll);

        p.texCoords.x = p.hit.textureCoord;
        p.texCoords.y = 0;

        let limit: i16 = Self::_RCL_drawWall(
            pixelFunc,
            general,
            y,
            wallStart,
            wallStart.wrapping_add(wallHeightScreen).wrapping_sub(1),
            -1,
            _RCL_camResYLimit as i16,
            p.hit.arrayValue,
            NonZeroSignum::pos(),
            &mut p,
        );

        // take max, in case no wall was drawn
        if limit > y {
            y = limit;
        }
        let wider: i32 = if y as i32 > wallStart {
            y as i32
        } else {
            wallStart
        };
        y = #[verifier::truncate]
        (wider as i16);

        // draw floor
        p.isWall = false;

        p.depth = (CAMERA_RESOLUTION_Y as RCL_Unit).wrapping_sub(y as RCL_Unit).wrapping_mul(
            self._RCL_horizontalDepthStep,
        ).wrapping_add(1);

        self._RCL_drawHorizontalColumn(
            pixelFunc,
            general,
            y,
            _RCL_camResYLimit as RCL_Unit,
            -1,
            _RCL_camResYLimit as i16,
            self._RCL_camera.height,
            NonZeroSignum::pos(),
            true,
            false,
            -1,
            &ray,
            &mut p,
        );
    }

    /// Casts a single ray and returns the first hit; its distance is -1
    /// where the ray hits nothing within a thousand steps.
    #[allow(non_snake_case)]
    pub fn RCL_castRay<A: RCL_ArrayFunction>(&self, ray: RCL_Ray, arrayFunc: &A) -> (result:
        RCL_HitResult)
        requires
            spec_ray_castable(ray),
        ensures
            ({
                let hits = spec_cast_ray_multi_hit(
                    arrayFunc,
                    None::<&A>,
                    self._RCL_rollFunction,
                    ray,
                    1000,
                    1,
                );
                result == if hits.len() == 0 {
                    RCL_HitResult { distance: -1i32, ..RCL_HitResult::spec_zeroed() }
                } else {
                    hits[0]
                }
            }),
    {
        let mut result: Vec<RCL_HitResult> = Vec::new();
        result.push(RCL_HitResult::zeroed());
        let mut RCL_len: u8 = 0;
        let c = RCL_RayConstraints { maxSteps: 1000, maxHits: 1 };

        self.RCL_castRayMultiHit(ray, arrayFunc, None::<&A>, &mut result, &mut RCL_len, c);

        let mut result: RCL_HitResult = result[0];

        if RCL_len == 0 {
            result.distance = -1;
        }
        result
    }

    /// Casts rays for the given camera view and draws a column for each.
    #[allow(non_snake_case)]
    pub fn RCL_castRaysMultiHit<
        F: RCL_ArrayFunction,
        C: RCL_ArrayFunction,
        T: RCL_ArrayFunction,
        P: RCL_PixelFunction,
    >(
        &self,
        complex: bool,
        level: &RCL_Level<F, C>,
        pixelFunc: &mut P,
        general: &mut RCL_General,
        cam: &RCL_Camera,
        typeFunction: Option<&T>,
    )
        requires
            spec_can_render::<F, C, P>(level, *old(general), *cam),
            complex ==> {
                &&& -MAX_WORLD_HEIGHT <= self._RCL_camera.height <= MAX_WORLD_HEIGHT
                &&& spec_scalable(self._RCL_startFloorHeight)
                &&& spec_scalable(self._RCL_startCeil_Height)
            },
        ensures
            ({
                let after = spec_cast_rays::<F, C, T, P, Roll>(
                    complex,
                    self,
                    level,
                    typeFunction,
                    Canvas { drawn: old(pixelFunc).spec_drawn(), general: *old(general) },
                    *cam,
                    0,
                );
                &&& final(pixelFunc).spec_drawn() == after.drawn
                &&& *final(general) == after.general
            }),
            final(general).defaultConstraints == old(general).defaultConstraints,
    {
        let dir1 = RCL_angleToDirection(cam.direction.wrapping_sub(RCL_HORIZONTAL_FOV_HALF));
        let dir2 = RCL_angleToDirection(cam.direction.wrapping_add(RCL_HORIZONTAL_FOV_HALF));

        let dX: RCL_Unit = dir2.x - dir1.x;
        let dY: RCL_Unit = dir2.y - dir1.y;

        let mut hits: Vec<RCL_HitResult> = Vec::new();
        let mut k: u8 = 0;
        while k < HITS_ARRAY_LIMIT
            invariant
                k <= HITS_ARRAY_LIMIT,
                hits.len() == k,
            decreases HITS_ARRAY_LIMIT - k,
        {
            hits.push(RCL_HitResult::zeroed());
            k += 1;
        }
        let mut hitCount: u8 = 0;

        let mut r = RCL_Ray { start: cam.position, direction: RCL_Vector2D::zero() };

        let mut currentDX: RCL_Unit = 0;
        let mut currentDY: RCL_Unit = 0;

        let ghost target = spec_cast_rays::<F, C, T, P, Roll>(
            complex,
            self,
            level,
            typeFunction,
            Canvas { drawn: old(pixelFunc).spec_drawn(), general: *old(general) },
            *cam,
            0,
        );
        assert(0 * dX == 0 && 0 * dY == 0) by (nonlinear_arith);

        let mut i: u16 = 0;
        while i < CAMERA_RESOLUTION_X
            invariant
                i <= CAMERA_RESOLUTION_X,
                hits.len() == HITS_ARRAY_LIMIT,
                spec_can_render::<F, C, P>(level, *general, *cam),
                general.defaultConstraints == old(general).defaultConstraints,
                complex ==> {
                    &&& -MAX_WORLD_HEIGHT <= self._RCL_camera.height <= MAX_WORLD_HEIGHT
                    &&& spec_scalable(self._RCL_startFloorHeight)
                    &&& spec_scalable(self._RCL_startCeil_Height)
                },
                dir1 == spec_angle_to_direction(cam.direction.wrapping_sub(RCL_HORIZONTAL_FOV_HALF)),
                dir2 == spec_angle_to_direction(cam.direction.wrapping_add(RCL_HORIZONTAL_FOV_HALF)),
                -32 <= dir1.x <= 32,
                -32 <= dir1.y <= 32,
                -32 <= dir2.x <= 32,
                -32 <= dir2.y <= 32,
                dX == dir2.x - dir1.x,
                dY == dir2.y - dir1.y,
                currentDX == i * dX,
                currentDY == i * dY,
                r.start == cam.position,
                spec_cast_rays::<F, C, T, P, Roll>(
                    complex,
                    self,
                    level,
                    typeFunction,
                    Canvas { drawn: pixelFunc.spec_drawn(), general: *general },
                    *cam,
                    i as int,
                ) == target,
            decreases CAMERA_RESOLUTION_X - i,
        {
            // Here by linearly interpolating the direction vector its length changes,
            // which in result achieves correcting the fish eye effect (computing
            // perpendicular distance).
            proof {
                assert(-64 * 320 <= i * dX <= 64 * 320 && -64 * 320 <= i * dY <= 64 * 320)
                    by (nonlinear_arith)
                    requires
                        0 <= i < 320,
                        -64 <= dX <= 64,
                        -64 <= dY <= 64,
                ;
                lemma_div_trunc_range(currentDX as int, 320);
                lemma_div_trunc_range(currentDY as int, 200);
                assert((i + 1) * dX == i * dX + dX && (i + 1) * dY == i * dY + dY)
                    by (nonlinear_arith);
            }
            r.direction.x = dir1.x + currentDX / CAMERA_RESOLUTION_X as RCL_Unit;
            r.direction.y = dir1.y + currentDY / CAMERA_RESOLUTION_Y as RCL_Unit;
            proof {
                assert(r == spec_column_ray(*cam, i as int));
                lemma_castable(r);
            }
            let constraints = general.defaultConstraints;

            if complex {
                let arrayFunc = _RCL_floorCeilFunction {
                    floor: &level.floorHeightFunction,
                    ceiling: match &level.ceilingHeightFunc {
                        Some(c) => Some(c),
                        None => None,
                    },
                };
                self.RCL_castRayMultiHit(
                    r,
                    &arrayFunc,
                    typeFunction,
                    &mut hits,
                    &mut hitCount,
                    constraints,
                );
                proof {
                    let found = spec_cast_ray_multi_hit(
                        &arrayFunc,
                        typeFunction,
                        self._RCL_rollFunction,
                        r,
                        constraints.maxSteps as int,
                        HITS_ARRAY_LIMIT as int,
                    );
                    assert(hits@.take(hitCount as int) =~= found);
                }
                self._RCL_columnFunctionComplex(level, pixelFunc, general, &hits, hitCount, i, r);
            } else {
                let arrayFunc = _floorHeightNotZeroFunction { floor: &level.floorHeightFunction };
                self.RCL_castRayMultiHit(
                    r,
                    &arrayFunc,
                    typeFunction,
                    &mut hits,
                    &mut hitCount,
                    constraints,
                );
                proof {
                    let found = spec_cast_ray_multi_hit(
                        &arrayFunc,
                        typeFunction,
                        self._RCL_rollFunction,
                        r,
                        constraints.maxSteps as int,
                        HITS_ARRAY_LIMIT as int,
                    );
                    assert(hits@.take(hitCount as int) =~= found);
                }
                self._RCL_columnFunctionSimple(
                    &level.floorHeightFunction,
                    pixelFunc,
                    general,
                    &hits,
                    hitCount,
                    i,
                    r,
                );
            }
            currentDX += dX;
            currentDY += dY;
            i += 1;
        }
    }
}

/// The square that the camera stands in, along one axis.
pub open spec fn spec_camera_square(c: RCL_Unit) -> i16 {
    spec_square_of(c) as i16
}

/// The renderer after it has taken up the camera for a complex view: the
/// rows of the view follow the camera's shear, and the column starts at the
/// heights of the camera's own square.
pub open spec fn spec_complex_setup<F: RCL_ArrayFunction, C: RCL_ArrayFunction, Roll: RCL_ArrayFunction>(
    g: RCL_Renderer_Global<Roll>,
    level: &RCL_Level<F, C>,
    cam: RCL_Camera,
) -> RCL_Renderer_Global<Roll> {
    let middle_row = (halfResY as i16).wrapping_add(cam.shear);
    let x = spec_camera_square(cam.position.x);
    let y = spec_camera_square(cam.position.y);
    RCL_Renderer_Global {
        _RCL_camera: cam,
        _RCL_middleRow: middle_row,
        _RCL_fHorizontalDepthStart: middle_row.wrapping_add(halfResY as i16),
        _RCL_cHorizontalDepthStart: middle_row.wrapping_sub(halfResY as i16),
        _RCL_startFloorHeight: level.floorHeightFunction.spec_at(x, y).wrapping_sub(cam.height),
        _RCL_startCeil_Height: if level.ceilingHeightFunc is Some {
            level.spec_ceiling(x, y).wrapping_sub(cam.height)
        } else {
            RCL_INFINITY
        },
        _RCL_horizontalDepthStep: 1,
        ..g
    }
}

/// The height of the camera above one square, in rows at distance one.
pub open spec fn spec_camera_height_screen(height: RCL_Unit) -> i16 {
    spec_div(200i32.wrapping_mul(height.wrapping_sub(RCL_UNITS_PER_SQUARE)), RCL_UNITS_PER_SQUARE)
        as i16
}

/// The renderer after it has taken up the camera for a simple view.
pub open spec fn spec_simple_setup<Roll: RCL_ArrayFunction>(
    g: RCL_Renderer_Global<Roll>,
    cam: RCL_Camera,
) -> RCL_Renderer_Global<Roll> {
    RCL_Renderer_Global {
        _RCL_camera: cam,
        _RCL_middleRow: halfResY as i16,
        _RCL_cameraHeightScreen: spec_camera_height_screen(cam.height),
        _RCL_horizontalDepthStep: 1,
        ..g
    }
}

/// The distance of the floor from a camera at the height `camera_height`
/// in the row `row` of a view whose middle row is `middle_row`.
pub open spec fn spec_floor_distance(camera_height: RCL_Unit, middle_row: i16, row: int) -> RCL_Unit {
    crate::rcl::units::spec_perspective_scale_inverse(
        spec_div(camera_height.wrapping_mul(200), RCL_UNITS_PER_SQUARE),
        crate::rcl::units::spec_abs_val((row as i32).wrapping_sub(middle_row as i32)),
    )
}

impl<Roll: RCL_ArrayFunction> RCL_Renderer_Global<Roll> {
    /// A renderer that has not seen a camera yet, without rolling doors.
    pub fn new() -> (g: RCL_Renderer_Global<Roll>)
        ensures
            g._RCL_camera == (RCL_Camera {
                position: RCL_Vector2D::spec_zero(),
                direction: 0,
                resolution: RCL_Vector2D::spec_zero(),
                shear: 0,
                height: 0,
            }),
            g._RCL_horizontalDepthStep == 0,
            g._RCL_startFloorHeight == 0,
            g._RCL_startCeil_Height == 0,
            g._RCL_middleRow == 0,
            g._RCL_fHorizontalDepthStart == 0,
            g._RCL_cHorizontalDepthStart == 0,
            g._RCL_cameraHeightScreen == 0,
            g._RCL_rollFunction is None,
            g._RCL_floorPixelDistances is None,
    {
        RCL_Renderer_Global {
            _RCL_camera: RCL_Camera {
                position: RCL_Vector2D::zero(),
                direction: 0,
                resolution: RCL_Vector2D::zero(),
                shear: 0,
                height: 0,
            },
            _RCL_horizontalDepthStep: 0,
            _RCL_startFloorHeight: 0,
            _RCL_startCeil_Height: 0,
            _RCL_middleRow: 0,
            _RCL_fHorizontalDepthStart: 0,
            _RCL_cHorizontalDepthStart: 0,
            _RCL_cameraHeightScreen: 0,
            _RCL_rollFunction: None,
            _RCL_floorPixelDistances: None,
        }
    }

    /// The distance measured along the ray, turned into the distance at
    /// right angles to the camera's projection plane; never zero.
    #[allow(non_snake_case)]
    pub fn RCL_adjustDistance(distance: RCL_Unit, camera: &RCL_Camera, ray: &RCL_Ray) -> (r:
        RCL_Unit)
        requires
            ray.direction.spec_can_normalize(),
        ensures
            r == spec_non_zero(
                spec_div(
                    distance.wrapping_mul(
                        RCL_Vector2D::spec_angleCos(
                            spec_angle_to_direction(camera.direction),
                            ray.direction,
                        ),
                    ),
                    RCL_UNITS_PER_SQUARE,
                ),
            ),
            r != 0,
    {
        let facing = RCL_angleToDirection(camera.direction);
        proof {
            lemma_can_normalize(facing);
        }
        let scaled: i32 = distance.wrapping_mul(RCL_Vector2D::angleCos(facing, ray.direction));
        proof {
            lemma_div_trunc_range(scaled as int, 32);
        }
        let result: RCL_Unit = scaled / RCL_UNITS_PER_SQUARE;

        // prevent division by zero
        RCL_nonZero(result)
    }

    /// Precomputes the distance from the camera to the floor for each screen
    /// row from `startIndex` on; the rows before it hold zero.
    #[allow(non_snake_case)]
    pub fn _RCL_precomputeFloorDistances(&self, camera: &RCL_Camera, startIndex: u16) -> (floorPixelDistances:
        [RCL_Unit; 200])
        ensures
            forall|i: int|
                0 <= i < 200 ==> floorPixelDistances[i] == if i < startIndex {
                    0
                } else {
                    spec_floor_distance(camera.height, self._RCL_middleRow, i)
                },
    {
        let mut floorPixelDistances: [RCL_Unit; 200] = [0;200];

        let scaled: i32 = camera.height.wrapping_mul(CAMERA_RESOLUTION_Y as RCL_Unit);
        proof {
            lemma_div_trunc_range(scaled as int, 32);
        }
        let camHeightScreenSize: RCL_Unit = scaled / RCL_UNITS_PER_SQUARE;

        let mut i: u16 = startIndex;
        while i < CAMERA_RESOLUTION_Y
            invariant
                camHeightScreenSize == spec_div(
                    camera.height.wrapping_mul(200),
                    RCL_UNITS_PER_SQUARE,
                ),
                startIndex <= i,
                forall|k: int|
                    0 <= k < 200 ==> floorPixelDistances[k] == if k < startIndex || k >= i {
                        0
                    } else {
                        spec_floor_distance(camera.height, self._RCL_middleRow, k)
                    },
            decreases CAMERA_RESOLUTION_Y - i,
        {
            let rows: RCL_Unit = crate::rcl::units::RCL_absVal(
                (i as RCL_Unit).wrapping_sub(self._RCL_middleRow as RCL_Unit),
            );
            proof {
                if rows != 0 {
                    lemma_perspective_divisor(rows);
                }
            }
            floorPixelDistances[i as usize] = crate::rcl::units::RCL_perspectiveScaleInverse(
                camHeightScreenSize,
                rows,
            );
            i += 1;
        }
        floorPixelDistances
    }

    /// Using provided functions, renders a complete complex (multilevel)
    /// camera view: walls of different heights, floors and ceilings on
    /// several levels, with camera shearing. Every column is drawn from the
    /// left to the right.
    #[allow(non_snake_case)]
    pub fn RCL_renderComplex<
        F: RCL_ArrayFunction,
        C: RCL_ArrayFunction,
        T: RCL_ArrayFunction,
        P: RCL_PixelFunction,
    >(
        &mut self,
        level: &RCL_Level<F, C>,
        pixelFunc: &mut P,
        general: &mut RCL_General,
        cam: RCL_Camera,
        typeFunction: Option<&T>,
    )
        requires
            spec_can_render::<F, C, P>(level, *old(general), cam),
        ensures
            *final(self) == spec_complex_setup(*old(self), level, cam),
            ({
                let after = spec_cast_rays::<F, C, T, P, Roll>(
                    true,
                    final(self),
                    level,
                    typeFunction,
                    Canvas { drawn: old(pixelFunc).spec_drawn(), general: *old(general) },
                    cam,
                    0,
                );
                &&& final(pixelFunc).spec_drawn() == after.drawn
                &&& *final(general) == after.general
            }),
            final(general).defaultConstraints == old(general).defaultConstraints,
    {
        self._RCL_camera = cam;

        self._RCL_middleRow = (halfResY as i16).wrapping_add(cam.shear);

        self._RCL_fHorizontalDepthStart = self._RCL_middleRow.wrapping_add(halfResY as i16);
        self._RCL_cHorizontalDepthStart = self._RCL_middleRow.wrapping_sub(halfResY as i16);

        let x: i16 = #[verifier::truncate]
        (RCL_divRoundDown(cam.position.x, RCL_UNITS_PER_SQUARE) as i16);
        let y: i16 = #[verifier::truncate]
        (RCL_divRoundDown(cam.position.y, RCL_UNITS_PER_SQUARE) as i16);

        self._RCL_startFloorHeight = level.floorHeightFunction.at(x, y).wrapping_sub(cam.height);

        self._RCL_startCeil_Height = if level.ceilingHeightFunc.is_some() {
            level.ceiling(x, y).wrapping_sub(cam.height)
        } else {
            RCL_INFINITY
        };

        self._RCL_horizontalDepthStep = RCL_HORIZON_DEPTH / CAMERA_RESOLUTION_Y as RCL_Unit;

        self.RCL_castRaysMultiHit(true, level, pixelFunc, general, &cam, typeFunction);
    }

    /// Renders the given camera view as a flat level: walls of one height
    /// on a flat floor under a flat ceiling, without camera shearing. This
    /// is simpler and faster than the complex view. Every column is drawn
    /// from the left to the right and from the top to the bottom.
    #[allow(non_snake_case)]
    pub fn RCL_renderSimple<
        F: RCL_ArrayFunction,
        C: RCL_ArrayFunction,
        T: RCL_ArrayFunction,
        P: RCL_PixelFunction,
    >(
        &mut self,
        level: &RCL_Level<F, C>,
        pixelFunc: &mut P,
        general: &mut RCL_General,
        cam: RCL_Camera,
        typeFunc: Option<&T>,
    )
        requires
            spec_can_render::<F, C, P>(level, *old(general), cam),
        ensures
            *final(self) == spec_simple_setup(*old(self), cam),
            ({
                let after = spec_cast_rays::<F, C, T, P, Roll>(
                    false,
                    final(self),
                    level,
                    typeFunc,
                    Canvas {
                        drawn: old(pixelFunc).spec_drawn(),
                        general: RCL_General {
                            defaultConstraints: RCL_RayConstraints {
                                maxHits: if old(self)._RCL_rollFunction is Some {
                                    3
                                } else {
                                    1
                                },
                                maxSteps: old(general).defaultConstraints.maxSteps,
                            },
                            ..*old(general)
                        },
                    },
                    cam,
                    0,
                );
                &&& final(pixelFunc).spec_drawn() == after.drawn
                &&& *final(general) == after.general
            }),
    {
        self._RCL_camera = cam;
        self._RCL_middleRow = halfResY as i16;

        let above: i32 = (CAMERA_RESOLUTION_Y as RCL_Unit).wrapping_mul(
            self._RCL_camera.height.wrapping_sub(RCL_UNITS_PER_SQUARE),
        );
        proof {
            lemma_div_trunc_range(above as int, 32);
        }
        self._RCL_cameraHeightScreen = #[verifier::truncate]
        ((above / RCL_UNITS_PER_SQUARE) as i16);

        self._RCL_horizontalDepthStep = RCL_HORIZON_DEPTH / CAMERA_RESOLUTION_Y as RCL_Unit;

        general.defaultConstraints.maxHits = if self._RCL_rollFunction.is_some() {
            3  // for correctly rendering rolling doors we'll need 3 hits (NOT 2)

        } else {
            1  // no door => 1 hit is enough

        };

        self.RCL_castRaysMultiHit(false, level, pixelFunc, general, &cam, typeFunc);
    }
}

/// A vector with components of at most 2^20 in magnitude can be
/// normalized.
pub proof fn lemma_can_normalize(v: RCL_Vector2D)
    requires
        -0x10_0000 <= v.x <= 0x10_0000,
        -0x10_0000 <= v.y <= 0x10_0000,
    ensures
        v.spec_can_normalize(),
{
    let dx = crate::rcl::units::spec_abs_val(v.x.wrapping_sub(0));
    let dy = crate::rcl::units::spec_abs_val(v.y.wrapping_sub(0));
    lemma_div_trunc_range(dx as int, 2);
    lemma_div_trunc_range(dy as int, 2);
    assert(0 <= v.spec_len() <= 0x18_0000);
    lemma_wrapping_mul_exact(v.x, 32);
    lemma_wrapping_mul_exact(v.y, 32);
}

} // verus!
