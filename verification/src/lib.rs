//! A software 3D rendering pipeline with machine-checked contracts.
//!
//! The crate holds a fixed-function triangle rasterizer (plane clipping,
//! perspective-correct scan conversion, reciprocal-depth testing), the asset
//! decoders that feed it, and an integer raycaster for grid-based worlds.
//!
//! The rasterizer computes with any number type that implements
//! [`scalar::Scalar`]; [`fixed::Fixed`] is the one that comes with the
//! crate. A frame is rendered by [`pipeline::render_frame`] into a
//! [`frame::Frame`], which owns the colour buffer and the depth buffer.

pub mod arith;
pub mod clip;
pub mod color;
pub mod controls;
pub mod fill;
pub mod fixed;
pub mod frame;
pub mod line;
pub mod matrix;
pub mod mesh;
pub mod order;
pub mod overlay;
pub mod pipeline;
pub mod profile;
pub mod raster;
pub mod rcl;
pub mod renderer;
pub mod scalar;
pub mod signum;
pub mod state;
pub mod texture;
pub mod timing;
pub mod vector;
