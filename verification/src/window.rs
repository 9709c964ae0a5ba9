//! Window geometry.
use vstd::prelude::*;

verus! {

/// The size of a window's drawable area, in physical pixels.
pub struct WindowPhysicalSize {
    pub width: u32,
    pub height: u32,
}

impl WindowPhysicalSize {
    pub fn new(width: u32, height: u32) -> (r: WindowPhysicalSize)
        ensures
            r == (WindowPhysicalSize { width, height }),
    {
        WindowPhysicalSize { width, height }
    }

    /// Whether the area has any pixels: a surface can only be configured for
    /// a size that has.
    pub fn has_area(&self) -> (r: bool)
        ensures
            r == (self.width > 0 && self.height > 0),
    {
        self.width > 0 && self.height > 0
    }
}

} // verus!
