//! Rendering settings that outlive a single batch.
use crate::color::Color;
use vstd::prelude::*;

verus! {

/// The settings applied to every vertex emitted from now on.
pub struct GraphicsState {
    /// The color given to emitted vertices.
    pub color: Color,
}

} // verus!
