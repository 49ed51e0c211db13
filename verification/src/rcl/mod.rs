//! Integer raycasting for grid worlds.
//!
//! All lengths and angles are in fixed-point units: a grid square is
//! `RCL_UNITS_PER_SQUARE` units wide, and a full turn is
//! `RCL_UNITS_PER_SQUARE` angle units.

pub mod cast;
pub mod collision;
pub mod column;
pub mod general;
pub mod player;
pub mod render;
pub mod screen;
pub mod types;
pub mod units;
pub mod world;
