//! Primitive topologies.
use vstd::prelude::*;

verus! {

/// How the indices of a batch are assembled into shapes.
#[derive(Clone, Copy, Debug, PartialEq, Eq, Structural)]
pub enum Primitive {
    /// Every three indices form a triangle.
    TriangleList,
    /// Every two indices form a line.
    LineList,
    /// Every index is a point.
    PointList,
}

} // verus!
