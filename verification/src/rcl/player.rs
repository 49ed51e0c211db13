//! A player who walks, turns, jumps and looks up and down, and sprites.

use crate::arith::lemma_div_trunc_range;
use crate::rcl::cast::RCL_Renderer_Global;
use crate::rcl::collision::spec_move_camera;
use crate::rcl::general::{
    GRAVITY_ACCELERATION, HEAD_BOB_HEIGHT, HEAD_BOB_STEP, PLAYER_JUMP_SPEED,
    PLAYER_ROTATION_SPEED, PLAYER_SPEED,
};
use crate::rcl::render::RCL_Level;
use crate::rcl::types::{spec_angle_to_direction, RCL_Camera, RCL_Vector2D, RCL_angleToDirection};
use crate::rcl::units::{
    spec_div, spec_rcl_clamp, spec_wrap, RCL_Unit, RCL_clamp, RCL_wrap, RCL_UNITS_PER_SQUARE,
};
use crate::rcl::world::RCL_ArrayFunction;
use vstd::prelude::*;

verus! {

/// General player class stuffed with everything the demos need.
#[allow(non_snake_case)]
#[derive(Copy, Clone, Debug, PartialEq, Eq, Structural)]
pub struct Player {
    pub mCamera: RCL_Camera,
    pub mVericalSpeed: RCL_Unit,
    /// In order to detect whether the player is standing on ground (for
    /// jumping) the vertical speed of the step before is kept as well.
    pub mVericalSpeedPrev: RCL_Unit,
    pub mRunning: bool,
    pub mHeadBob: RCL_Unit,
    pub mHeadBobUp: bool,
}

/// The middle of a square, along one axis.
pub open spec fn spec_square_middle(square: i16) -> RCL_Unit {
    (square * 32 + 16) as i32
}

/// The step of a walking player in the time `dt`: the offset in the plane,
/// and the head bob with its direction.
pub open spec fn spec_walk(p: Player, move_direction: i16, strafe: bool, dt: u32) -> (
    RCL_Vector2D,
    RCL_Unit,
    bool,
) {
    if move_direction != 0 {
        let horizontal_step = spec_div(
            (dt as i32).wrapping_mul(PLAYER_SPEED).wrapping_mul(
                if p.mRunning {
                    2i32
                } else {
                    1i32
                },
            ),
            1000,
        ).wrapping_mul(
            if move_direction > 0 {
                1i32
            } else {
                -1i32
            },
        );
        let facing = spec_angle_to_direction(
            p.mCamera.direction.wrapping_add(
                if strafe {
                    8i32
                } else {
                    0i32
                },
            ),
        );
        let bob = p.mHeadBob.wrapping_add(
            if p.mHeadBobUp {
                10i32
            } else {
                -10i32
            },
        );
        (
            RCL_Vector2D {
                x: spec_div(facing.x.wrapping_mul(horizontal_step), RCL_UNITS_PER_SQUARE),
                y: spec_div(facing.y.wrapping_mul(horizontal_step), RCL_UNITS_PER_SQUARE),
            },
            bob,
            if bob > HEAD_BOB_HEIGHT {
                false
            } else if bob < -HEAD_BOB_HEIGHT {
                true
            } else {
                p.mHeadBobUp
            },
        )
    } else {
        (RCL_Vector2D::spec_zero(), spec_div(p.mHeadBob, 2), p.mHeadBobUp)
    }
}

/// The direction of a player who turns for the time `dt`.
pub open spec fn spec_turn(direction: RCL_Unit, turn_direction: i16, dt: u32) -> RCL_Unit {
    if turn_direction != 0 {
        spec_wrap(
            direction.wrapping_add(
                (turn_direction as i32).wrapping_mul(
                    spec_div((dt as i32).wrapping_mul(PLAYER_ROTATION_SPEED), 1000),
                ),
            ),
            RCL_UNITS_PER_SQUARE,
        )
    } else {
        direction
    }
}

/// The shear of a camera whose player looks up or down, or lets go.
pub open spec fn spec_shear(camera: RCL_Camera, shear_direction: i16) -> i16 {
    if shear_direction != 0 {
        spec_rcl_clamp(
            (camera.shear.wrapping_add(shear_direction) as i32).wrapping_mul(10),
            0i32.wrapping_sub(camera.resolution.y),
            camera.resolution.y,
        ) as i16
    } else {
        (spec_div(camera.shear as i32, 2)) as i16
    }
}

/// The player after one update.
pub open spec fn spec_player_update<F: RCL_ArrayFunction, C: RCL_ArrayFunction>(
    p: Player,
    level: &RCL_Level<F, C>,
    move_direction: i16,
    strafe: bool,
    turn_direction: i16,
    jump: bool,
    shear_direction: i16,
    compute_height: bool,
    dt: u32,
) -> Player {
    let walk = spec_walk(p, move_direction, strafe, dt);
    let turned = RCL_Camera {
        direction: spec_turn(p.mCamera.direction, turn_direction, dt),
        ..p.mCamera
    };
    let moved = spec_move_camera(level, turned, walk.0, p.mVericalSpeed, compute_height, false);
    let landed = if moved.height.wrapping_sub(turned.height) == 0 {
        0
    } else {
        p.mVericalSpeed
    };
    let speed = if jump && landed == 0 && p.mVericalSpeedPrev == 0 {
        PLAYER_JUMP_SPEED
    } else {
        landed
    };
    Player {
        mCamera: RCL_Camera { shear: spec_shear(moved, shear_direction), ..moved },
        mVericalSpeed: if compute_height {
            speed.wrapping_sub(spec_div((dt as i32).wrapping_mul(GRAVITY_ACCELERATION), 1000))
        } else {
            speed
        },
        mVericalSpeedPrev: speed,
        mRunning: p.mRunning,
        mHeadBob: walk.1,
        mHeadBobUp: walk.2,
    }
}

impl Player {
    /// The player at rest at the origin, three squares up.
    pub open spec fn spec_new() -> Player {
        Player {
            mCamera: RCL_Camera {
                position: RCL_Vector2D::spec_zero(),
                direction: 0,
                resolution: RCL_Vector2D { x: 55, y: 88 },
                shear: 0,
                height: 96,
            },
            mVericalSpeed: 0,
            mVericalSpeedPrev: 0,
            mRunning: false,
            mHeadBob: 0,
            mHeadBobUp: true,
        }
    }

    pub fn new() -> (p: Player)
        ensures
            p == Self::spec_new(),
    {
        Player {
            mCamera: RCL_Camera {
                position: RCL_Vector2D::zero(),
                direction: 0,
                resolution: RCL_Vector2D {
                    x: crate::rcl::general::SCREEN_WIDTH as RCL_Unit
                        / crate::rcl::general::SUBSAMPLE as RCL_Unit,
                    y: crate::rcl::general::SCREEN_HEIGHT as RCL_Unit,
                },
                shear: 0,
                height: RCL_UNITS_PER_SQUARE * 3,
            },
            mVericalSpeed: 0,
            mVericalSpeedPrev: 0,
            mRunning: false,
            mHeadBob: 0,
            mHeadBobUp: true,
        }
    }

    #[allow(non_snake_case)]
    pub fn setPosition(&mut self, x: RCL_Unit, y: RCL_Unit)
        ensures
            *final(self) == (Player {
                mCamera: RCL_Camera { position: RCL_Vector2D { x, y }, ..old(self).mCamera },
                ..*old(self)
            }),
    {
        self.mCamera.position.x = x;
        self.mCamera.position.y = y;
    }

    #[allow(non_snake_case)]
    pub fn setPosition_dir(&mut self, x: RCL_Unit, y: RCL_Unit, z: RCL_Unit, direction: RCL_Unit)
        ensures
            *final(self) == (Player {
                mCamera: RCL_Camera {
                    position: RCL_Vector2D { x, y },
                    height: z,
                    direction,
                    ..old(self).mCamera
                },
                ..*old(self)
            }),
    {
        self.mCamera.position.x = x;
        self.mCamera.position.y = y;
        self.mCamera.height = z;
        self.mCamera.direction = direction;
    }

    /// Puts the player into the middle of a square.
    #[allow(non_snake_case)]
    pub fn setPositionSquare(&mut self, squareX: i16, squareY: i16)
        ensures
            *final(self) == (Player {
                mCamera: RCL_Camera {
                    position: RCL_Vector2D {
                        x: spec_square_middle(squareX),
                        y: spec_square_middle(squareY),
                    },
                    ..old(self).mCamera
                },
                ..*old(self)
            }),
    {
        self.setPosition(
            squareX as RCL_Unit * RCL_UNITS_PER_SQUARE + RCL_UNITS_PER_SQUARE / 2,
            squareY as RCL_Unit * RCL_UNITS_PER_SQUARE + RCL_UNITS_PER_SQUARE / 2,
        );
    }

    /// Moves the player for the time `dt` (milliseconds): a step forwards or
    /// backwards (or sideways with `strafe`) with collisions, a turn, a
    /// jump from the ground, a look up or down, and gravity.
    pub fn update<Roll: RCL_ArrayFunction, F: RCL_ArrayFunction, C: RCL_ArrayFunction>(
        &mut self,
        renderer: &RCL_Renderer_Global<Roll>,
        level: &RCL_Level<F, C>,
        moveDirection: i16,
        strafe: bool,
        turnDirection: i16,
        jump: bool,
        shearDirection: i16,
        computeHeight: bool,
        dt: u32,
    )
        ensures
            *final(self) == spec_player_update(
                *old(self),
                level,
                moveDirection,
                strafe,
                turnDirection,
                jump,
                shearDirection,
                computeHeight,
                dt,
            ),
    {
        let (moveOffset, bob, bob_up) = walk(self, moveDirection, strafe, dt);
        self.mHeadBob = bob;
        self.mHeadBobUp = bob_up;

        self.mCamera.direction = turn(self.mCamera.direction, turnDirection, dt);

        let prevHeight: RCL_Unit = self.mCamera.height;

        renderer.RCL_moveCameraWithCollision(
            level,
            &mut self.mCamera,
            moveOffset,
            self.mVericalSpeed,
            computeHeight,
            false,
        );

        let heightDiff: RCL_Unit = self.mCamera.height.wrapping_sub(prevHeight);

        if heightDiff == 0 {
            self.mVericalSpeed = 0;  // hit floor/ceiling
        }
        if jump && self.mVericalSpeed == 0 && self.mVericalSpeedPrev == 0 {
            self.mVericalSpeed = PLAYER_JUMP_SPEED;  // jump
        }
        self.mCamera.shear = shear(&self.mCamera, shearDirection);

        self.mVericalSpeedPrev = self.mVericalSpeed;

        if computeHeight {
            self.mVericalSpeed = self.mVericalSpeed.wrapping_sub(per_second(dt, GRAVITY_ACCELERATION));  // gravity
        }
    }
}

/// `rate` per second over `dt` milliseconds.
fn per_second(dt: u32, rate: RCL_Unit) -> (r: RCL_Unit)
    ensures
        r == spec_div((dt as i32).wrapping_mul(rate), 1000),
{
    let dt_units: RCL_Unit = #[verifier::truncate]
    (dt as RCL_Unit);
    let scaled: i32 = dt_units.wrapping_mul(rate);
    proof {
        lemma_div_trunc_range(scaled as int, 1000);
    }
    scaled / 1000
}

fn walk(p: &Player, move_direction: i16, strafe: bool, dt: u32) -> (r: (RCL_Vector2D, RCL_Unit, bool))
    ensures
        r == spec_walk(*p, move_direction, strafe, dt),
{
    if move_direction != 0 {
        let dt_units: RCL_Unit = #[verifier::truncate]
        (dt as RCL_Unit);
        let scaled: i32 = dt_units.wrapping_mul(PLAYER_SPEED).wrapping_mul(
            if p.mRunning {
                2
            } else {
                1
            },
        );
        proof {
            lemma_div_trunc_range(scaled as int, 1000);
        }
        let horizontalStep: RCL_Unit = (scaled / 1000).wrapping_mul(
            if move_direction > 0 {
                1
            } else {
                -1
            },
        );

        let mut moveOffset = RCL_angleToDirection(
            p.mCamera.direction.wrapping_add(
                if strafe {
                    RCL_UNITS_PER_SQUARE / 4
                } else {
                    0
                },
            ),
        );

        let mx: i32 = moveOffset.x.wrapping_mul(horizontalStep);
        let my: i32 = moveOffset.y.wrapping_mul(horizontalStep);
        proof {
            lemma_div_trunc_range(mx as int, 32);
            lemma_div_trunc_range(my as int, 32);
        }
        moveOffset.x = mx / RCL_UNITS_PER_SQUARE;
        moveOffset.y = my / RCL_UNITS_PER_SQUARE;

        let bob: RCL_Unit = p.mHeadBob.wrapping_add(
            if p.mHeadBobUp {
                HEAD_BOB_STEP as RCL_Unit
            } else {
                -(HEAD_BOB_STEP as RCL_Unit)
            },
        );
        let up: bool = if bob > HEAD_BOB_HEIGHT {
            false
        } else if bob < -HEAD_BOB_HEIGHT {
            true
        } else {
            p.mHeadBobUp
        };
        (moveOffset, bob, up)
    } else {
        proof {
            lemma_div_trunc_range(p.mHeadBob as int, 2);
        }
        (RCL_Vector2D::zero(), p.mHeadBob / 2, p.mHeadBobUp)
    }
}

fn turn(direction: RCL_Unit, turn_direction: i16, dt: u32) -> (r: RCL_Unit)
    ensures
        r == spec_turn(direction, turn_direction, dt),
{
    if turn_direction != 0 {
        let rotationStep: RCL_Unit = per_second(dt, PLAYER_ROTATION_SPEED);
        RCL_wrap(
            direction.wrapping_add((turn_direction as RCL_Unit).wrapping_mul(rotationStep)),
            RCL_UNITS_PER_SQUARE,
        )
    } else {
        direction
    }
}

fn shear(camera: &RCL_Camera, shear_direction: i16) -> (r: i16)
    ensures
        r == spec_shear(*camera, shear_direction),
{
    if shear_direction != 0 {
        #[verifier::truncate]
        (RCL_clamp(
            (camera.shear.wrapping_add(shear_direction) as RCL_Unit).wrapping_mul(10),
            0i32.wrapping_sub(camera.resolution.y),
            camera.resolution.y,
        ) as i16)
    } else {
        proof {
            lemma_div_trunc_range(camera.shear as int, 2);
        }
        camera.shear / 2
    }
}

/// Sprite class, again just bare minimum to fit the needs.
#[allow(non_snake_case)]
#[derive(Copy, Clone, Debug)]
pub struct Sprite {
    pub mImage: &'static [u8],
    pub mPosition: RCL_Vector2D,
    pub mHeight: RCL_Unit,
    pub mPixelSize: RCL_Unit,
}

impl Sprite {
    /// A sprite in the middle of a square, half a square above the level
    /// `z`.
    pub fn new(
        image: &'static [u8],
        squareX: i16,
        squareY: i16,
        z: RCL_Unit,
        pixelSize: RCL_Unit,
    ) -> (s: Sprite)
        ensures
            s.mImage@ == image@,
            s.mPixelSize == pixelSize,
            s.mPosition == (RCL_Vector2D {
                x: spec_square_middle(squareX),
                y: spec_square_middle(squareY),
            }),
            s.mHeight == z.wrapping_mul(RCL_UNITS_PER_SQUARE).wrapping_add(16i32),
    {
        Sprite {
            mImage: image,
            mPixelSize: pixelSize,
            mPosition: RCL_Vector2D {
                x: squareX as RCL_Unit * RCL_UNITS_PER_SQUARE + RCL_UNITS_PER_SQUARE / 2,
                y: squareY as RCL_Unit * RCL_UNITS_PER_SQUARE + RCL_UNITS_PER_SQUARE / 2,
            },
            mHeight: z.wrapping_mul(RCL_UNITS_PER_SQUARE).wrapping_add(RCL_UNITS_PER_SQUARE / 2),
        }
    }

    /// The sprite without an image, at the origin.
    #[allow(non_snake_case)]
    pub fn Sprite() -> (s: Sprite)
        ensures
            s.mImage@.len() == 0,
            s.mHeight == 0,
            s.mPixelSize == 1,
            s.mPosition == RCL_Vector2D::spec_zero(),
    {
        Sprite { mImage: &[], mHeight: 0, mPixelSize: 1, mPosition: RCL_Vector2D::zero() }
    }
}

} // verus!
