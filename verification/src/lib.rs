//! An immediate-mode vertex batching core for a small real-time renderer.
use vstd::prelude::*;

pub mod angle;
pub mod builder;
pub mod camera;
pub mod color;
pub mod graphics;
pub mod matrix;
pub mod num;
pub mod point;
pub mod projection;
pub mod render;
pub mod translate;
pub mod vector;
pub mod vertex;
pub mod window;
pub mod zero;

pub use builder::AppBuilder;
pub use camera::{Camera, CameraAttributes};
pub use color::Color;
pub use projection::{orthographic, perspective};

verus! {

/// The application handle. Running it is the embedding program's business;
/// the handle itself carries no state.
pub struct App {}

} // verus!
