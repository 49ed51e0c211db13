//! The plain data of the raycaster.

use crate::arith::{div_trunc, lemma_div_trunc_range};
use crate::rcl::units::{
    spec_abs_val, spec_can_divide, spec_cos_int, spec_div, spec_non_zero,
    spec_perspective_divisor, spec_perspective_scale, spec_sin_int, RCL_Unit, RCL_absVal,
    RCL_cosInt, RCL_nonZero, RCL_perspectiveScale, RCL_sinInt, RCL_UNITS_PER_SQUARE,
};
use vstd::prelude::*;

verus! {

/// Position in 2D space.
#[allow(non_camel_case_types)]
#[derive(Copy, Clone, Debug, PartialEq, Eq, Structural)]
pub struct RCL_Vector2D {
    pub x: RCL_Unit,
    pub y: RCL_Unit,
}

impl RCL_Vector2D {
    /// The origin, as a model value.
    pub open spec fn spec_zero() -> RCL_Vector2D {
        RCL_Vector2D { x: 0, y: 0 }
    }

    /// The origin.
    pub fn zero() -> (v: RCL_Vector2D)
        ensures
            v == Self::spec_zero(),
    {
        RCL_Vector2D { x: 0, y: 0 }
    }

    /// The distance between two points in the octagonal approximation: the
    /// longer of the two extents plus half of the shorter.
    pub open spec fn spec_dist(from: RCL_Vector2D, to: RCL_Vector2D) -> RCL_Unit {
        let dx = spec_abs_val(to.x.wrapping_sub(from.x));
        let dy = spec_abs_val(to.y.wrapping_sub(from.y));
        if dy > dx {
            spec_div(dx, 2).wrapping_add(dy)
        } else {
            spec_div(dy, 2).wrapping_add(dx)
        }
    }

    /// The length of the vector, as the distance of its tip from the
    /// origin.
    pub open spec fn spec_len(self) -> RCL_Unit {
        Self::spec_dist(Self::spec_zero(), self)
    }

    /// The vector scaled to the length `RCL_UNITS_PER_SQUARE`.
    pub open spec fn spec_normalize(self) -> RCL_Vector2D {
        let l = spec_non_zero(self.spec_len());
        RCL_Vector2D {
            x: spec_div(self.x.wrapping_mul(RCL_UNITS_PER_SQUARE), l),
            y: spec_div(self.y.wrapping_mul(RCL_UNITS_PER_SQUARE), l),
        }
    }

    /// Whether the vector can be normalized: the machine can divide both
    /// scaled components by the length.
    pub open spec fn spec_can_normalize(self) -> bool {
        let l = spec_non_zero(self.spec_len());
        &&& spec_can_divide(self.x.wrapping_mul(RCL_UNITS_PER_SQUARE), l)
        &&& spec_can_divide(self.y.wrapping_mul(RCL_UNITS_PER_SQUARE), l)
    }

    /// The cosine of the angle between two vectors, times
    /// `RCL_UNITS_PER_SQUARE`.
    #[allow(non_snake_case)]
    pub open spec fn spec_angleCos(v1: RCL_Vector2D, v2: RCL_Vector2D) -> RCL_Unit {
        let n1 = v1.spec_normalize();
        let n2 = v2.spec_normalize();
        spec_div(n1.x.wrapping_mul(n2.x).wrapping_add(n1.y.wrapping_mul(n2.y)), RCL_UNITS_PER_SQUARE)
    }

    pub fn dist(from: RCL_Vector2D, to: RCL_Vector2D) -> (r: RCL_Unit)
        ensures
            r == Self::spec_dist(from, to),
    {
        let dx: RCL_Unit = RCL_absVal(to.x.wrapping_sub(from.x));
        let dy: RCL_Unit = RCL_absVal(to.y.wrapping_sub(from.y));
        proof {
            lemma_div_trunc_range(dx as int, 2);
            lemma_div_trunc_range(dy as int, 2);
        }
        if dy > dx {
            (dx / 2).wrapping_add(dy)
        } else {
            (dy / 2).wrapping_add(dx)
        }
    }

    pub fn len(self) -> (r: RCL_Unit)
        ensures
            r == self.spec_len(),
    {
        RCL_Vector2D::dist(RCL_Vector2D::zero(), self)
    }

    /// Normalizes the vector to have the length `RCL_UNITS_PER_SQUARE`.
    pub fn normalize(self) -> (r: RCL_Vector2D)
        requires
            self.spec_can_normalize(),
        ensures
            r == self.spec_normalize(),
    {
        let l = RCL_nonZero(self.len());
        RCL_Vector2D {
            x: div_trunc(self.x.wrapping_mul(RCL_UNITS_PER_SQUARE), l),
            y: div_trunc(self.y.wrapping_mul(RCL_UNITS_PER_SQUARE), l),
        }
    }

    /// Computes the cosine of the angle between two vectors.
    #[allow(non_snake_case)]
    pub fn angleCos(v1: RCL_Vector2D, v2: RCL_Vector2D) -> (r: RCL_Unit)
        requires
            v1.spec_can_normalize(),
            v2.spec_can_normalize(),
        ensures
            r == Self::spec_angleCos(v1, v2),
    {
        let v1 = v1.normalize();
        let v2 = v2.normalize();
        let dot: i32 = v1.x.wrapping_mul(v2.x).wrapping_add(v1.y.wrapping_mul(v2.y));
        proof {
            lemma_div_trunc_range(dot as int, 32);
        }
        dot / RCL_UNITS_PER_SQUARE
    }
}

/// The direction of the angle `angle`, as a vector of the length
/// `RCL_UNITS_PER_SQUARE`. Angles turn clockwise from the positive x axis.
pub open spec fn spec_angle_to_direction(angle: RCL_Unit) -> RCL_Vector2D {
    RCL_Vector2D { x: spec_cos_int(angle), y: (-spec_sin_int(angle)) as i32 }
}

#[allow(non_snake_case)]
pub fn RCL_angleToDirection(angle: RCL_Unit) -> (r: RCL_Vector2D)
    ensures
        r == spec_angle_to_direction(angle),
        -32 <= r.x <= 32,
        -32 <= r.y <= 32,
{
    RCL_Vector2D { x: RCL_cosInt(angle), y: -1 * RCL_sinInt(angle) }
}

/// Whether `point` lies to the left of `ray`, seen along the ray: the z
/// component of the cross product of the ray's direction and the vector to
/// the point is positive.
pub open spec fn spec_point_is_left_of_ray(point: RCL_Vector2D, ray: RCL_Ray) -> bool {
    let dx = point.x.wrapping_sub(ray.start.x);
    let dy = point.y.wrapping_sub(ray.start.y);
    ray.direction.x.wrapping_mul(dy).wrapping_sub(ray.direction.y.wrapping_mul(dx)) > 0
}

#[allow(non_snake_case)]
pub fn RCL_pointIsLeftOfRay(point: RCL_Vector2D, ray: RCL_Ray) -> (r: bool)
    ensures
        r == spec_point_is_left_of_ray(point, ray),
{
    let dX = point.x.wrapping_sub(ray.start.x);
    let dY = point.y.wrapping_sub(ray.start.y);
    ray.direction.x.wrapping_mul(dY).wrapping_sub(ray.direction.y.wrapping_mul(dX)) > 0
}

/// A ray: where it starts and the direction it travels in.
#[allow(non_camel_case_types)]
#[derive(Copy, Clone, Debug, PartialEq, Eq, Structural)]
pub struct RCL_Ray {
    pub start: RCL_Vector2D,
    pub direction: RCL_Vector2D,
}

/// What a ray hit.
#[allow(non_camel_case_types)]
#[allow(non_snake_case)]
#[derive(Copy, Clone, Debug, PartialEq, Eq, Structural)]
pub struct RCL_HitResult {
    /// Distance to the hit position, or -1 if no collision happened. The
    /// distance is perpendicular to the projection plane.
    pub distance: RCL_Unit,
    /// Direction of the hit: which side of the square was entered.
    pub direction: u8,
    /// Normalized (0 to `RCL_UNITS_PER_SQUARE` - 1) horizontal texture
    /// coordinate.
    pub textureCoord: RCL_Unit,
    /// Collided square coordinates.
    pub square: RCL_Vector2D,
    /// Exact collision position.
    pub position: RCL_Vector2D,
    /// Value that the array function gave for the square, most often its
    /// floor height.
    pub arrayValue: RCL_Unit,
    /// Type of the square, such as a texture index.
    pub type_: RCL_Unit,
    /// Door roll of the square.
    pub doorRoll: RCL_Unit,
}

impl RCL_HitResult {
    /// The hit with every field zero, as a model value.
    pub open spec fn spec_zeroed() -> RCL_HitResult {
        RCL_HitResult {
            distance: 0,
            direction: 0,
            textureCoord: 0,
            square: RCL_Vector2D::spec_zero(),
            position: RCL_Vector2D::spec_zero(),
            arrayValue: 0,
            type_: 0,
            doorRoll: 0,
        }
    }

    pub fn zeroed() -> (h: RCL_HitResult)
        ensures
            h == Self::spec_zeroed(),
    {
        RCL_HitResult {
            distance: 0,
            direction: 0,
            textureCoord: 0,
            square: RCL_Vector2D::zero(),
            position: RCL_Vector2D::zero(),
            arrayValue: 0,
            type_: 0,
            doorRoll: 0,
        }
    }

    /// The hit at the horizon along `ray`, in the square of `self`, as a
    /// model value.
    pub open spec fn spec_infinite_hit(self, ray: RCL_Ray) -> RCL_HitResult {
        RCL_HitResult {
            distance: 1024,
            position: RCL_Vector2D {
                x: spec_div(ray.direction.x.wrapping_mul(1024), RCL_UNITS_PER_SQUARE),
                y: spec_div(ray.direction.y.wrapping_mul(1024), RCL_UNITS_PER_SQUARE),
            },
            direction: 0,
            textureCoord: 0,
            arrayValue: 0,
            doorRoll: 0,
            type_: 0,
            square: self.square,
        }
    }

    /// Fills the hit with the data of a hit at the horizon, along `ray`. The
    /// square is kept.
    #[allow(non_snake_case)]
    pub fn _RCL_makeInfiniteHit(&mut self, ray: &RCL_Ray)
        ensures
            *final(self) == old(self).spec_infinite_hit(*ray),
    {
        self.distance = RCL_UNITS_PER_SQUARE * RCL_UNITS_PER_SQUARE;
        let px: i32 = ray.direction.x.wrapping_mul(self.distance);
        let py: i32 = ray.direction.y.wrapping_mul(self.distance);
        proof {
            lemma_div_trunc_range(px as int, 32);
            lemma_div_trunc_range(py as int, 32);
        }
        self.position.x = px / RCL_UNITS_PER_SQUARE;
        self.position.y = py / RCL_UNITS_PER_SQUARE;
        self.direction = 0;
        self.textureCoord = 0;
        self.arrayValue = 0;
        self.doorRoll = 0;
        self.type_ = 0;
    }
}

/// The viewer.
#[allow(non_camel_case_types)]
#[derive(Copy, Clone, Debug, PartialEq, Eq, Structural)]
pub struct RCL_Camera {
    pub position: RCL_Vector2D,
    pub direction: RCL_Unit,
    pub resolution: RCL_Vector2D,
    /// Shear offset in pixels (0 means none); simulates looking up or down.
    pub shear: i16,
    pub height: RCL_Unit,
}

impl RCL_Camera {
    /// Puts the camera at the origin, facing right, one square above the
    /// ground and without shear. The resolution is kept.
    pub fn init(&mut self)
        ensures
            *final(self) == (RCL_Camera {
                position: RCL_Vector2D::spec_zero(),
                direction: 0,
                resolution: old(self).resolution,
                shear: 0,
                height: RCL_UNITS_PER_SQUARE,
            }),
    {
        self.position.x = 0;
        self.position.y = 0;
        self.direction = 0;
        self.shear = 0;
        self.height = RCL_UNITS_PER_SQUARE;
    }
}

/// What is known of one rendered pixel; handed to the function that draws
/// it.
#[allow(non_camel_case_types)]
#[allow(non_snake_case)]
#[derive(Copy, Clone, Debug, PartialEq, Eq, Structural)]
pub struct RCL_PixelInfo {
    /// On-screen position.
    pub position: RCL_Vector2D,
    /// Whether the pixel is a wall or a floor/ceiling.
    pub isWall: bool,
    /// Whether the pixel is floor or ceiling.
    pub isFloor: bool,
    /// Whether the pixel belongs to the horizon segment.
    pub isHorizon: bool,
    /// Corrected depth.
    pub depth: RCL_Unit,
    /// Only for wall pixels: the wall's height.
    pub wallHeight: RCL_Unit,
    /// World height (mostly for floor).
    pub height: RCL_Unit,
    /// Corresponding ray hit.
    pub hit: RCL_HitResult,
    /// Normalized (0 to `RCL_UNITS_PER_SQUARE` - 1) texture coordinates.
    pub texCoords: RCL_Vector2D,
}

impl RCL_PixelInfo {
    /// The pixel with every field zero or false, as a model value.
    pub open spec fn spec_zeroed() -> RCL_PixelInfo {
        RCL_PixelInfo {
            position: RCL_Vector2D::spec_zero(),
            isWall: false,
            isFloor: false,
            isHorizon: false,
            depth: 0,
            wallHeight: 0,
            height: 0,
            hit: RCL_HitResult::spec_zeroed(),
            texCoords: RCL_Vector2D::spec_zero(),
        }
    }

    pub fn zeroed() -> (p: RCL_PixelInfo)
        ensures
            p == Self::spec_zeroed(),
    {
        RCL_PixelInfo {
            position: RCL_Vector2D::zero(),
            isWall: false,
            isFloor: false,
            isHorizon: false,
            depth: 0,
            wallHeight: 0,
            height: 0,
            hit: RCL_HitResult::zeroed(),
            texCoords: RCL_Vector2D::zero(),
        }
    }
}

/// Limits on one ray cast.
#[allow(non_camel_case_types)]
#[allow(non_snake_case)]
#[derive(Copy, Clone, Debug, PartialEq, Eq, Structural)]
pub struct RCL_RayConstraints {
    pub maxHits: u16,
    pub maxSteps: u16,
}

impl RCL_RayConstraints {
    /// Sets the default limits: one hit, twenty steps.
    pub fn init(&mut self)
        ensures
            *final(self) == (RCL_RayConstraints { maxHits: 1, maxSteps: 20 }),
    {
        self.maxHits = 1;
        self.maxSteps = 20;
    }
}

/// Columns of the camera's view.
pub const CAMERA_RESOLUTION_X: u16 = 320;

/// Rows of the camera's view.
pub const CAMERA_RESOLUTION_Y: u16 = 200;

/// The vector from the camera to `world_position`, turned into the
/// camera's frame: x is the depth, y the offset to the side.
pub open spec fn spec_to_camera(world_position: RCL_Vector2D, camera: RCL_Camera) -> RCL_Vector2D {
    let to_x = world_position.x.wrapping_sub(camera.position.x);
    let to_y = world_position.y.wrapping_sub(camera.position.y);
    let cos = spec_cos_int(camera.direction);
    let sin = spec_sin_int(camera.direction);
    RCL_Vector2D {
        x: spec_div(to_x.wrapping_mul(cos).wrapping_sub(to_y.wrapping_mul(sin)), RCL_UNITS_PER_SQUARE),
        y: spec_div(to_x.wrapping_mul(sin).wrapping_add(to_y.wrapping_mul(cos)), RCL_UNITS_PER_SQUARE),
    }
}

/// Whether the machine can carry out the divisions of `RCL_mapToScreen`.
pub open spec fn spec_can_map_to_screen(
    world_position: RCL_Vector2D,
    height: RCL_Unit,
    camera: RCL_Camera,
) -> bool {
    let p = spec_to_camera(world_position, camera);
    &&& spec_can_divide((-1i32).wrapping_mul(p.y).wrapping_mul(160), spec_non_zero(p.x))
    &&& p.x != 0 ==> spec_can_divide(
        height.wrapping_sub(camera.height).wrapping_mul(RCL_UNITS_PER_SQUARE),
        spec_perspective_divisor(p.x),
    )
}

/// Where a point of the world at the height `height` shows on screen: its
/// column, its row and its depth. Every other field of the result is zero.
pub open spec fn spec_map_to_screen(
    world_position: RCL_Vector2D,
    height: RCL_Unit,
    camera: RCL_Camera,
) -> RCL_PixelInfo {
    let p = spec_to_camera(world_position, camera);
    RCL_PixelInfo {
        position: RCL_Vector2D {
            x: 160i32.wrapping_add(
                spec_div((-1i32).wrapping_mul(p.y).wrapping_mul(160), spec_non_zero(p.x)),
            ),
            y: 100i32.wrapping_sub(
                spec_div(
                    200i32.wrapping_mul(
                        spec_perspective_scale(height.wrapping_sub(camera.height), p.x),
                    ),
                    RCL_UNITS_PER_SQUARE,
                ),
            ).wrapping_add(camera.shear as i32),
        },
        depth: p.x,
        ..RCL_PixelInfo::spec_zeroed()
    }
}

/// Maps a single point in the world to the screen (2D position + depth).
#[allow(non_snake_case)]
pub fn RCL_mapToScreen(worldPosition: RCL_Vector2D, height: RCL_Unit, camera: &RCL_Camera) -> (result:
    RCL_PixelInfo)
    requires
        spec_can_map_to_screen(worldPosition, height, *camera),
    ensures
        result == spec_map_to_screen(worldPosition, height, *camera),
{
    let mut result: RCL_PixelInfo = RCL_PixelInfo::zeroed();

    let mut toPoint: RCL_Vector2D = RCL_Vector2D {
        x: worldPosition.x.wrapping_sub(camera.position.x),
        y: worldPosition.y.wrapping_sub(camera.position.y),
    };

    let middleColumn: RCL_Unit = (CAMERA_RESOLUTION_X / 2) as RCL_Unit;

    // rotate the point
    let cos = RCL_cosInt(camera.direction);
    let sin = RCL_sinInt(camera.direction);

    let tmp = toPoint.x;

    let rx: i32 = toPoint.x.wrapping_mul(cos).wrapping_sub(toPoint.y.wrapping_mul(sin));
    let ry: i32 = tmp.wrapping_mul(sin).wrapping_add(toPoint.y.wrapping_mul(cos));
    proof {
        lemma_div_trunc_range(rx as int, 32);
        lemma_div_trunc_range(ry as int, 32);
    }
    toPoint.x = rx / RCL_UNITS_PER_SQUARE;
    toPoint.y = ry / RCL_UNITS_PER_SQUARE;

    result.depth = toPoint.x;

    result.position.x = middleColumn.wrapping_add(
        div_trunc(
            (-1i32).wrapping_mul(toPoint.y).wrapping_mul(middleColumn),
            RCL_nonZero(result.depth),
        ),
    );

    let scaled: i32 = (CAMERA_RESOLUTION_Y as RCL_Unit).wrapping_mul(
        RCL_perspectiveScale(height.wrapping_sub(camera.height), result.depth),
    );
    proof {
        lemma_div_trunc_range(scaled as int, 32);
    }
    result.position.y = ((CAMERA_RESOLUTION_Y / 2) as RCL_Unit).wrapping_sub(
        scaled / RCL_UNITS_PER_SQUARE,
    ).wrapping_add(camera.shear as RCL_Unit);

    result
}

} // verus!
