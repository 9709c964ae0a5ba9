//! Objects that can be moved.
use vstd::prelude::*;

verus! {

/// An object that can be moved along the global axes.
pub trait Translate<T> {
    /// Moves the object by `(x, y, z)`.
    fn translate(&mut self, x: T, y: T, z: T);
}

} // verus!
