//! Casting rays through the grid.
//!
//! A ray walks from square to square along its direction; wherever the
//! world's array function changes its value from one square to the next, the
//! ray has hit a wall.

use crate::arith::{div_trunc, lemma_div_trunc_range, spec_div_trunc};
use crate::rcl::types::{
    RCL_Camera, RCL_HitResult, RCL_Ray, RCL_RayConstraints, RCL_Vector2D,
};
use crate::rcl::units::{
    spec_abs_val, spec_can_divide, spec_div, spec_div_round_down, spec_non_zero, spec_wrap,
    RCL_Unit, RCL_absVal, RCL_divRoundDown, RCL_nonZero, RCL_unlikely, RCL_wrap,
    RCL_UNITS_PER_SQUARE,
};
use crate::rcl::world::RCL_ArrayFunction;
use vstd::prelude::*;

verus! {

/// The most hits that the renderer keeps of one ray.
pub const HITS_ARRAY_LIMIT: u8 = 16;

/// The scale of the reciprocals of a ray's direction.
pub const RECIP_SCALE: RCL_Unit = 65536;

/// What the renderer computes once per frame and uses for every column.
#[allow(non_camel_case_types)]
#[allow(non_snake_case)]
pub struct RCL_Renderer_Global<Roll: RCL_ArrayFunction> {
    pub _RCL_camera: RCL_Camera,
    pub _RCL_horizontalDepthStep: RCL_Unit,
    pub _RCL_startFloorHeight: RCL_Unit,
    pub _RCL_startCeil_Height: RCL_Unit,
    pub _RCL_middleRow: i16,
    pub _RCL_fHorizontalDepthStart: i16,
    pub _RCL_cHorizontalDepthStart: i16,
    pub _RCL_cameraHeightScreen: i16,
    /// Says door rolling, square by square.
    pub _RCL_rollFunction: Option<Roll>,
    /// Distance of the floor from the camera, row by row.
    pub _RCL_floorPixelDistances: Option<[RCL_Unit; 200]>,
}

/// The square that a position lies in, along one axis.
pub open spec fn spec_square_of(c: RCL_Unit) -> RCL_Unit {
    spec_div_round_down(c, RCL_UNITS_PER_SQUARE)
}

/// The length of the ray's direction, scaled by the units of a square.
pub open spec fn spec_dir_len_norm(ray: RCL_Ray) -> RCL_Unit {
    ray.direction.spec_len().wrapping_mul(RCL_UNITS_PER_SQUARE)
}

/// Whether the ray can be cast: the machine can divide the scaled length of
/// its direction by either component.
pub open spec fn spec_ray_castable(ray: RCL_Ray) -> bool {
    &&& spec_can_divide(spec_dir_len_norm(ray), spec_non_zero(ray.direction.x))
    &&& spec_can_divide(spec_dir_len_norm(ray), spec_non_zero(ray.direction.y))
}

/// How far the ray travels between two sides of squares, along each axis.
pub open spec fn spec_delta(ray: RCL_Ray) -> RCL_Vector2D {
    RCL_Vector2D {
        x: spec_abs_val(spec_div(spec_dir_len_norm(ray), spec_non_zero(ray.direction.x))),
        y: spec_abs_val(spec_div(spec_dir_len_norm(ray), spec_non_zero(ray.direction.y))),
    }
}

/// The way the ray steps from square to square: -1 or 1 along each axis.
pub open spec fn spec_step(ray: RCL_Ray) -> RCL_Vector2D {
    RCL_Vector2D {
        x: if ray.direction.x < 0 {
            -1i32
        } else {
            1i32
        },
        y: if ray.direction.y < 0 {
            -1i32
        } else {
            1i32
        },
    }
}

/// How far the ray travels from its start to the first side, along one
/// axis.
pub open spec fn spec_first_side(start: RCL_Unit, direction: RCL_Unit, delta: RCL_Unit) -> RCL_Unit {
    if direction < 0 {
        spec_div(spec_wrap(start, RCL_UNITS_PER_SQUARE).wrapping_mul(delta), RCL_UNITS_PER_SQUARE)
    } else {
        spec_div(
            spec_wrap(32i32.wrapping_sub(start), RCL_UNITS_PER_SQUARE).wrapping_mul(delta),
            RCL_UNITS_PER_SQUARE,
        )
    }
}

/// One over a component of the direction, times `RECIP_SCALE`.
pub open spec fn spec_recip(direction: RCL_Unit) -> RCL_Unit {
    spec_div(RECIP_SCALE, spec_non_zero(direction))
}

/// The texture coordinate of a hit: where along the wall the ray hit.
pub open spec fn spec_texture_coord(direction: u8, position: RCL_Vector2D) -> RCL_Unit {
    if direction == 0 {
        spec_wrap((-1i32).wrapping_mul(position.x), RCL_UNITS_PER_SQUARE)
    } else if direction == 1 {
        spec_wrap(position.y, RCL_UNITS_PER_SQUARE)
    } else if direction == 2 {
        spec_wrap(position.x, RCL_UNITS_PER_SQUARE)
    } else if direction == 3 {
        spec_wrap((-1i32).wrapping_mul(position.y), RCL_UNITS_PER_SQUARE)
    } else {
        0
    }
}

/// The door roll of a hit: the roll of the square, with its sign changed on
/// the sides 0 and 1; zero without a roll function.
pub open spec fn spec_door_roll(direction: u8, roll: Option<RCL_Unit>) -> RCL_Unit {
    match roll {
        None => 0,
        Some(r) => if direction == 0 || direction == 1 {
            r.wrapping_mul(-1i32)
        } else {
            r
        },
    }
}

/// The hit of `ray` on the side of `square` that it entered by its last
/// step, which was along x if `step_horizontal` and along y if not.
///
/// The hit lies on the side of the square that faces the ray. Its other
/// coordinate follows from the ray's direction, and its distance is the
/// distance along the axis of the step divided by the direction's
/// component along that axis, which is the distance at right angles to the
/// projection plane.
pub open spec fn spec_hit(
    ray: RCL_Ray,
    square: RCL_Vector2D,
    step_horizontal: bool,
    array_value: RCL_Unit,
    type_: RCL_Unit,
    roll: Option<RCL_Unit>,
) -> RCL_HitResult {
    let step = spec_step(ray);
    if step_horizontal {
        let px = if step.x == -1 {
            square.x.wrapping_mul(RCL_UNITS_PER_SQUARE).wrapping_add(RCL_UNITS_PER_SQUARE)
        } else {
            square.x.wrapping_mul(RCL_UNITS_PER_SQUARE)
        };
        let direction: u8 = if step.x == -1 {
            1
        } else {
            3
        };
        let diff = px.wrapping_sub(ray.start.x);
        let recip = spec_recip(ray.direction.x);
        let position = RCL_Vector2D {
            x: px,
            y: ray.start.y.wrapping_add(
                spec_div(ray.direction.y.wrapping_mul(diff).wrapping_mul(recip), RECIP_SCALE),
            ),
        };
        RCL_HitResult {
            distance: spec_div(
                spec_div(diff, 4).wrapping_mul(RCL_UNITS_PER_SQUARE).wrapping_mul(recip),
                16384,
            ),
            direction,
            textureCoord: spec_texture_coord(direction, position),
            square,
            position,
            arrayValue: array_value,
            type_,
            doorRoll: spec_door_roll(direction, roll),
        }
    } else {
        let py = if step.y == -1 {
            square.y.wrapping_mul(RCL_UNITS_PER_SQUARE).wrapping_add(RCL_UNITS_PER_SQUARE)
        } else {
            square.y.wrapping_mul(RCL_UNITS_PER_SQUARE)
        };
        let direction: u8 = if step.y == -1 {
            0
        } else {
            2
        };
        let diff = py.wrapping_sub(ray.start.y);
        let recip = spec_recip(ray.direction.y);
        let position = RCL_Vector2D {
            x: ray.start.x.wrapping_add(
                spec_div(ray.direction.x.wrapping_mul(diff).wrapping_mul(recip), RECIP_SCALE),
            ),
            y: py,
        };
        RCL_HitResult {
            distance: spec_div(
                spec_div(diff, 4).wrapping_mul(RCL_UNITS_PER_SQUARE).wrapping_mul(recip),
                16384,
            ),
            direction,
            textureCoord: spec_texture_coord(direction, position),
            square,
            position,
            arrayValue: array_value,
            type_,
            doorRoll: spec_door_roll(direction, roll),
        }
    }
}

/// Where a ray stands on its walk.
pub struct RayWalk {
    /// The square that the ray is in.
    pub square: RCL_Vector2D,
    /// How far it is from the start to the next side, along each axis.
    pub next_side_dist: RCL_Vector2D,
    /// Whether the last step was along x.
    pub step_horizontal: bool,
    /// The value of the array function in the square before.
    pub square_type: RCL_Unit,
    /// The hits so far.
    pub hits: Seq<RCL_HitResult>,
}

/// The walk before the first step.
pub open spec fn spec_walk_start<A: RCL_ArrayFunction>(array_func: &A, ray: RCL_Ray) -> RayWalk {
    let square = RCL_Vector2D { x: spec_square_of(ray.start.x), y: spec_square_of(ray.start.y) };
    let delta = spec_delta(ray);
    RayWalk {
        square,
        next_side_dist: RCL_Vector2D {
            x: spec_first_side(ray.start.x, ray.direction.x, delta.x),
            y: spec_first_side(ray.start.y, ray.direction.y, delta.y),
        },
        step_horizontal: false,
        square_type: array_func.spec_at(square.x as i16, square.y as i16),
        hits: Seq::empty(),
    }
}

/// The walk with a hit noted where the square's value differs from that of
/// the square before.
pub open spec fn spec_walk_look<A: RCL_ArrayFunction, T: RCL_ArrayFunction, Roll: RCL_ArrayFunction>(
    array_func: &A,
    type_func: Option<&T>,
    roll_func: Option<Roll>,
    ray: RCL_Ray,
    w: RayWalk,
) -> RayWalk {
    let x = w.square.x as i16;
    let y = w.square.y as i16;
    let current_type = array_func.spec_at(x, y);
    if current_type != w.square_type {
        RayWalk {
            square_type: current_type,
            hits: w.hits.push(
                spec_hit(
                    ray,
                    w.square,
                    w.step_horizontal,
                    current_type,
                    match type_func {
                        Some(t) => t.spec_at(x, y),
                        None => 0,
                    },
                    match roll_func {
                        Some(r) => Some(r.spec_at(x, y)),
                        None => None,
                    },
                ),
            ),
            ..w
        }
    } else {
        w
    }
}

/// The walk after one step to the nearer of the two next sides.
pub open spec fn spec_walk_step(ray: RCL_Ray, w: RayWalk) -> RayWalk {
    let delta = spec_delta(ray);
    let step = spec_step(ray);
    if w.next_side_dist.x < w.next_side_dist.y {
        RayWalk {
            next_side_dist: RCL_Vector2D {
                x: w.next_side_dist.x.wrapping_add(delta.x),
                y: w.next_side_dist.y,
            },
            square: RCL_Vector2D { x: w.square.x.wrapping_add(step.x), y: w.square.y },
            step_horizontal: true,
            ..w
        }
    } else {
        RayWalk {
            next_side_dist: RCL_Vector2D {
                x: w.next_side_dist.x,
                y: w.next_side_dist.y.wrapping_add(delta.y),
            },
            square: RCL_Vector2D { x: w.square.x, y: w.square.y.wrapping_add(step.y) },
            step_horizontal: false,
            ..w
        }
    }
}

/// The walk after the steps `i` up to `max_steps`. It ends early when
/// `capacity` hits have been noted.
pub open spec fn spec_walk<A: RCL_ArrayFunction, T: RCL_ArrayFunction, Roll: RCL_ArrayFunction>(
    array_func: &A,
    type_func: Option<&T>,
    roll_func: Option<Roll>,
    ray: RCL_Ray,
    max_steps: int,
    capacity: int,
    i: int,
    w: RayWalk,
) -> RayWalk
    decreases max_steps - i,
{
    if i >= max_steps {
        w
    } else {
        let looked = spec_walk_look(array_func, type_func, roll_func, ray, w);
        if looked.hits.len() > w.hits.len() && looked.hits.len() >= capacity {
            looked
        } else {
            spec_walk(
                array_func,
                type_func,
                roll_func,
                ray,
                max_steps,
                capacity,
                i + 1,
                spec_walk_step(ray, looked),
            )
        }
    }
}

/// The hits of a ray, nearest first: at most `capacity`, found within
/// `max_steps` steps.
pub open spec fn spec_cast_ray_multi_hit<
    A: RCL_ArrayFunction,
    T: RCL_ArrayFunction,
    Roll: RCL_ArrayFunction,
>(
    array_func: &A,
    type_func: Option<&T>,
    roll_func: Option<Roll>,
    ray: RCL_Ray,
    max_steps: int,
    capacity: int,
) -> Seq<RCL_HitResult> {
    spec_walk(
        array_func,
        type_func,
        roll_func,
        ray,
        max_steps,
        capacity,
        0,
        spec_walk_start(array_func, ray),
    ).hits
}

/// `stored` with its first entries replaced by `hits`.
pub open spec fn spec_stored(stored: Seq<RCL_HitResult>, hits: Seq<RCL_HitResult>) -> Seq<
    RCL_HitResult,
> {
    Seq::new(
        stored.len(),
        |k: int|
            if k < hits.len() {
                hits[k]
            } else {
                stored[k]
            },
    )
}

/// The farthest that a hit of a short walk can be.
pub const NEAR_HIT_DISTANCE: RCL_Unit = 105472;

/// Whether a walk is short: it starts within 2^24 units of the origin and
/// takes at most 100 steps.
pub open spec fn spec_short_walk(ray: RCL_Ray, max_steps: int) -> bool {
    &&& -0x100_0000 <= ray.start.x <= 0x100_0000
    &&& -0x100_0000 <= ray.start.y <= 0x100_0000
    &&& max_steps <= 100
}

/// Whether a hit is near: its distance is at most `NEAR_HIT_DISTANCE` in
/// magnitude.
pub open spec fn spec_near(h: RCL_HitResult) -> bool {
    -NEAR_HIT_DISTANCE <= h.distance <= NEAR_HIT_DISTANCE
}

/// A product that fits is the machine's product.
pub proof fn lemma_wrapping_mul_exact(a: i32, b: i32)
    requires
        i32::MIN <= a * b <= i32::MAX,
    ensures
        a.wrapping_mul(b) == a * b,
{
}

/// A hit on a square that lies within 3264 units of the ray's start, along
/// the axis of the last step, is near.
pub proof fn lemma_hit_near(
    ray: RCL_Ray,
    square: RCL_Vector2D,
    step_horizontal: bool,
    array_value: RCL_Unit,
    type_: RCL_Unit,
    roll: Option<RCL_Unit>,
)
    requires
        -0x10_0000 <= square.x <= 0x10_0000,
        -0x10_0000 <= square.y <= 0x10_0000,
        step_horizontal ==> -3264 <= square.x * 32 - ray.start.x <= 3264,
        !step_horizontal ==> -3264 <= square.y * 32 - ray.start.y <= 3264,
    ensures
        spec_near(spec_hit(ray, square, step_horizontal, array_value, type_, roll)),
{
    let (sq, start, dir): (i32, i32, i32) = if step_horizontal {
        (square.x, ray.start.x, ray.direction.x)
    } else {
        (square.y, ray.start.y, ray.direction.y)
    };
    lemma_wrapping_mul_exact(sq, 32);
    let base = sq.wrapping_mul(32);
    let p: i32 = if dir < 0 {
        base.wrapping_add(32)
    } else {
        base
    };
    let diff = p.wrapping_sub(start);
    assert(-3296 <= diff <= 3296);
    let d4 = spec_div(diff, 4);
    lemma_div_trunc_range(diff as int, 4);
    assert(-824 <= d4 <= 824) by {
        if diff >= 0 {
            assert(diff as int / 4 <= 824);
        } else {
            assert((-diff) as int / 4 <= 824);
        }
    }
    lemma_wrapping_mul_exact(d4, 32);
    let m1 = d4.wrapping_mul(32);
    let recip = spec_recip(dir);
    let nz = spec_non_zero(dir);
    lemma_div_trunc_range(65536, nz as int);
    assert(-65536 <= recip <= 65536);
    assert(-1_728_053_248 <= m1 * recip <= 1_728_053_248) by (nonlinear_arith)
        requires
            -26368 <= m1 <= 26368,
            -65536 <= recip <= 65536,
    ;
    lemma_wrapping_mul_exact(m1, recip);
    let m2 = m1.wrapping_mul(recip);
    let dist = spec_div(m2, 16384);
    assert(-105472 <= dist <= 105472) by {
        if m2 >= 0 {
            assert(m2 as int / 16384 <= 105472);
        } else {
            assert((-m2) as int / 16384 <= 105472);
        }
    }
    assert(spec_hit(ray, square, step_horizontal, array_value, type_, roll).distance == dist);
}

/// The square of a position within 2^24 units of the origin lies within 64
/// units of the position.
pub proof fn lemma_square_of(c: RCL_Unit)
    requires
        -0x100_0000 <= c <= 0x100_0000,
    ensures
        -64 <= spec_square_of(c) * 32 - c <= 0,
        -0x8_0001 <= spec_square_of(c) <= 0x8_0000,
{
    lemma_div_trunc_range(c as int, 32);
    if c >= 0 {
        assert(c as int == 32 * (c as int / 32) + c as int % 32);
    } else {
        assert((-c) as int == 32 * ((-c) as int / 32) + (-c) as int % 32);
    }
}

fn first_side(start: RCL_Unit, direction: RCL_Unit, delta: RCL_Unit) -> (r: RCL_Unit)
    ensures
        r == spec_first_side(start, direction, delta),
{
    if direction < 0 {
        div_trunc(
            RCL_wrap(start, RCL_UNITS_PER_SQUARE).wrapping_mul(delta),
            RCL_UNITS_PER_SQUARE,
        )
    } else {
        div_trunc(
            RCL_wrap(RCL_UNITS_PER_SQUARE.wrapping_sub(start), RCL_UNITS_PER_SQUARE).wrapping_mul(
                delta,
            ),
            RCL_UNITS_PER_SQUARE,
        )
    }
}

fn texture_coord(direction: u8, position: RCL_Vector2D) -> (r: RCL_Unit)
    ensures
        r == spec_texture_coord(direction, position),
{
    if direction == 0 {
        RCL_wrap((-1i32).wrapping_mul(position.x), RCL_UNITS_PER_SQUARE)
    } else if direction == 1 {
        RCL_wrap(position.y, RCL_UNITS_PER_SQUARE)
    } else if direction == 2 {
        RCL_wrap(position.x, RCL_UNITS_PER_SQUARE)
    } else if direction == 3 {
        RCL_wrap((-1i32).wrapping_mul(position.y), RCL_UNITS_PER_SQUARE)
    } else {
        0
    }
}

fn hit_of(
    ray: &RCL_Ray,
    square: RCL_Vector2D,
    step_horizontal: bool,
    array_value: RCL_Unit,
    type_: RCL_Unit,
    roll: Option<RCL_Unit>,
) -> (h: RCL_HitResult)
    ensures
        h == spec_hit(*ray, square, step_horizontal, array_value, type_, roll),
{
    let mut h = RCL_HitResult::zeroed();

    h.arrayValue = array_value;
    h.doorRoll = 0;
    h.position = ray.start;
    h.square = square;

    if step_horizontal {
        let rayDirXRecip: i32 = div_trunc(RECIP_SCALE, RCL_nonZero(ray.direction.x));
        h.position.x = square.x.wrapping_mul(RCL_UNITS_PER_SQUARE);
        h.direction = 3;

        if ray.direction.x < 0 {
            h.direction = 1;
            h.position.x = h.position.x.wrapping_add(RCL_UNITS_PER_SQUARE);
        }
        let diff: i32 = h.position.x.wrapping_sub(ray.start.x);

        // avoid division by multiplying with reciprocal
        h.position.y = ray.start.y.wrapping_add(
            div_trunc(ray.direction.y.wrapping_mul(diff).wrapping_mul(rayDirXRecip), RECIP_SCALE),
        );

        // "/ 4" is here to prevent overflow
        h.distance = div_trunc(
            div_trunc(h.position.x.wrapping_sub(ray.start.x), 4).wrapping_mul(
                RCL_UNITS_PER_SQUARE,
            ).wrapping_mul(rayDirXRecip),
            RECIP_SCALE / 4,
        );
    } else {
        let rayDirYRecip: i32 = div_trunc(RECIP_SCALE, RCL_nonZero(ray.direction.y));
        h.position.y = square.y.wrapping_mul(RCL_UNITS_PER_SQUARE);
        h.direction = 2;

        if ray.direction.y < 0 {
            h.direction = 0;
            h.position.y = h.position.y.wrapping_add(RCL_UNITS_PER_SQUARE);
        }
        let diff: i32 = h.position.y.wrapping_sub(ray.start.y);

        h.position.x = ray.start.x.wrapping_add(
            div_trunc(ray.direction.x.wrapping_mul(diff).wrapping_mul(rayDirYRecip), RECIP_SCALE),
        );

        h.distance = div_trunc(
            div_trunc(h.position.y.wrapping_sub(ray.start.y), 4).wrapping_mul(
                RCL_UNITS_PER_SQUARE,
            ).wrapping_mul(rayDirYRecip),
            RECIP_SCALE / 4,
        );
    }
    h.type_ = type_;
    h.textureCoord = texture_coord(h.direction, h.position);

    match roll {
        Some(r) => {
            h.doorRoll = r;
            if h.direction == 0 || h.direction == 1 {
                h.doorRoll = h.doorRoll.wrapping_mul(-1);
            }
        },
        None => {},
    }
    h
}

impl<Roll: RCL_ArrayFunction> RCL_Renderer_Global<Roll> {
    /// Casts a single ray and stores its hits, nearest first, at the start
    /// of `hitResults`; their number goes to `hitResultsLen`.
    ///
    /// The hit distance is divided by the length of the ray's direction,
    /// which corrects the fish eye effect. `arrayFunc` says where the walls
    /// are: between squares for which it gives different values.
    /// `typeFunc`, where given, marks each hit with the type of its square.
    /// The walk ends after `constraints.maxSteps` steps or when
    /// `hitResults` is full.
    #[allow(non_snake_case)]
    pub fn RCL_castRayMultiHit<A: RCL_ArrayFunction, T: RCL_ArrayFunction>(
        &self,
        ray: RCL_Ray,
        arrayFunc: &A,
        typeFunc: Option<&T>,
        hitResults: &mut Vec<RCL_HitResult>,
        hitResultsLen: &mut u8,
        constraints: RCL_RayConstraints,
    )
        requires
            1 <= old(hitResults).len() <= 255,
            spec_ray_castable(ray),
        ensures
            final(hitResults)@ == spec_stored(
                old(hitResults)@,
                spec_cast_ray_multi_hit(
                    arrayFunc,
                    typeFunc,
                    self._RCL_rollFunction,
                    ray,
                    constraints.maxSteps as int,
                    old(hitResults)@.len() as int,
                ),
            ),
            *final(hitResultsLen) == spec_cast_ray_multi_hit(
                arrayFunc,
                typeFunc,
                self._RCL_rollFunction,
                ray,
                constraints.maxSteps as int,
                old(hitResults)@.len() as int,
            ).len(),
            *final(hitResultsLen) <= old(hitResults).len(),
            spec_short_walk(ray, constraints.maxSteps as int) ==> forall|k: int|
                0 <= k < *final(hitResultsLen) ==> spec_near(#[trigger] final(hitResults)@[k]),
    {
        let mut currentSquare = RCL_Vector2D {
            x: RCL_divRoundDown(ray.start.x, RCL_UNITS_PER_SQUARE),
            y: RCL_divRoundDown(ray.start.y, RCL_UNITS_PER_SQUARE),
        };

        *hitResultsLen = 0;

        let mut squareType: RCL_Unit = arrayFunc.at(
            #[verifier::truncate]
            (currentSquare.x as i16),
            #[verifier::truncate]
            (currentSquare.y as i16),
        );

        // DDA variables
        let mut stepHorizontal: bool = false;  // whether the last step was hor. or vert.

        let dirVecLengthNorm: i32 = ray.direction.len().wrapping_mul(RCL_UNITS_PER_SQUARE);

        let delta = RCL_Vector2D {
            x: RCL_absVal(div_trunc(dirVecLengthNorm, RCL_nonZero(ray.direction.x))),
            y: RCL_absVal(div_trunc(dirVecLengthNorm, RCL_nonZero(ray.direction.y))),
        };

        // init DDA
        let step = RCL_Vector2D {
            x: if ray.direction.x < 0 {
                -1
            } else {
                1
            },
            y: if ray.direction.y < 0 {
                -1
            } else {
                1
            },
        };
        let mut nextSideDist = RCL_Vector2D {
            x: first_side(ray.start.x, ray.direction.x, delta.x),
            y: first_side(ray.start.y, ray.direction.y, delta.y),
        };

        // DDA loop
        let ghost short = spec_short_walk(ray, constraints.maxSteps as int);
        let ghost square0 = currentSquare;
        proof {
            if short {
                lemma_square_of(ray.start.x);
                lemma_square_of(ray.start.y);
            }
        }
        let ghost capacity = hitResults@.len() as int;
        let ghost mut walk = spec_walk_start(arrayFunc, ray);
        let mut full: bool = false;
        let mut i: u16 = 0;
        assert(hitResults@ =~= spec_stored(old(hitResults)@, walk.hits));
        while i < constraints.maxSteps && !full
            invariant
                i <= constraints.maxSteps,
                short == spec_short_walk(ray, constraints.maxSteps as int),
                short ==> {
                    &&& -64 <= square0.x * 32 - ray.start.x <= 0
                    &&& -64 <= square0.y * 32 - ray.start.y <= 0
                    &&& -0x8_0001 <= square0.x <= 0x8_0000
                    &&& -0x8_0001 <= square0.y <= 0x8_0000
                    &&& -i <= currentSquare.x - square0.x <= i
                    &&& -i <= currentSquare.y - square0.y <= i
                    &&& forall|k: int|
                        0 <= k < *hitResultsLen ==> spec_near(#[trigger] hitResults@[k])
                },
                capacity == old(hitResults)@.len(),
                1 <= capacity <= 255,
                hitResults@.len() == capacity,
                delta == spec_delta(ray),
                step == spec_step(ray),
                walk.square == currentSquare,
                walk.next_side_dist == nextSideDist,
                walk.step_horizontal == stepHorizontal,
                walk.square_type == squareType,
                walk.hits.len() == *hitResultsLen,
                *hitResultsLen <= capacity,
                full ==> *hitResultsLen == capacity,
                !full ==> *hitResultsLen < capacity,
                hitResults@ == spec_stored(old(hitResults)@, walk.hits),
                full ==> walk == spec_walk(
                    arrayFunc,
                    typeFunc,
                    self._RCL_rollFunction,
                    ray,
                    constraints.maxSteps as int,
                    capacity,
                    0,
                    spec_walk_start(arrayFunc, ray),
                ),
                !full ==> spec_walk(
                    arrayFunc,
                    typeFunc,
                    self._RCL_rollFunction,
                    ray,
                    constraints.maxSteps as int,
                    capacity,
                    i as int,
                    walk,
                ) == spec_walk(
                    arrayFunc,
                    typeFunc,
                    self._RCL_rollFunction,
                    ray,
                    constraints.maxSteps as int,
                    capacity,
                    0,
                    spec_walk_start(arrayFunc, ray),
                ),
            decreases constraints.maxSteps - i + (if full { 0int } else { 1int }),
        {
            let sx: i16 = #[verifier::truncate]
            (currentSquare.x as i16);
            let sy: i16 = #[verifier::truncate]
            (currentSquare.y as i16);
            let currentType: RCL_Unit = arrayFunc.at(sx, sy);
            let ghost looked = spec_walk_look(
                arrayFunc,
                typeFunc,
                self._RCL_rollFunction,
                ray,
                walk,
            );

            if RCL_unlikely(currentType != squareType) {
                // collision
                let type_: RCL_Unit = match typeFunc {
                    Some(t) => t.at(sx, sy),
                    None => 0,
                };
                let roll: Option<RCL_Unit> = match &self._RCL_rollFunction {
                    Some(r) => Some(r.at(sx, sy)),
                    None => None,
                };
                let h = hit_of(&ray, currentSquare, stepHorizontal, currentType, type_, roll);
                proof {
                    if short {
                        lemma_hit_near(ray, currentSquare, stepHorizontal, currentType, type_, roll);
                    }
                }

                let ghost before = hitResults@;
                hitResults[*hitResultsLen as usize] = h;

                *hitResultsLen += 1;

                squareType = currentType;
                proof {
                    assert(looked.hits == walk.hits.push(h));
                    assert(hitResults@ =~= spec_stored(old(hitResults)@, looked.hits));
                }

                if *hitResultsLen as usize >= hitResults.len() {
                    full = true;
                }
            }
            proof {
                walk = looked;
            }
            if !full {
                // DDA step
                if nextSideDist.x < nextSideDist.y {
                    nextSideDist.x = nextSideDist.x.wrapping_add(delta.x);
                    currentSquare.x = currentSquare.x.wrapping_add(step.x);
                    stepHorizontal = true;
                } else {
                    nextSideDist.y = nextSideDist.y.wrapping_add(delta.y);
                    currentSquare.y = currentSquare.y.wrapping_add(step.y);
                    stepHorizontal = false;
                }
                proof {
                    walk = spec_walk_step(ray, walk);
                }
                i += 1;
            }
        }
    }
}

} // verus!
