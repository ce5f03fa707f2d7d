//! Draw-order depth for layered 2D sprites.
//!
//! Each sprite carries an integer draw layer. Every frame its depth is
//! `1 + layer - y / h`, where `y` is the sprite's projected viewport
//! coordinate and `h` the viewport height, both in one integer unit that the
//! caller picks (pixels, or a fixed-point fraction of a pixel). Depths are kept
//! as exact fractions, so their order is decided without rounding.

mod depth;
mod error;
mod laws;
mod normalise;

pub use depth::{Depth, DrawLayer, DrawOrderPlugin, Viewport, BASE_OFFSET, DEPTH_NUM_BOUND};
pub use error::ConfigurationError;
pub use laws::{boundary_depths, cross_layer_order, normalise_deterministic, within_layer_order};
pub use normalise::{normalise_z_values, single_camera, DepthTarget};
