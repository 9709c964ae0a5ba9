//! The ways a drawing call can be refused.
use vstd::prelude::*;

verus! {

/// A drawing call made out of turn, or a batch too large to finish. None of
/// these can be recovered from within the frame: the caller is expected to
/// stop.
#[derive(Clone, Copy, Debug, PartialEq, Eq, Structural)]
pub enum GraphicsError {
    /// A batch was needed but none is open.
    NotStarted,
    /// A batch was to be opened while another is still open.
    AlreadyStarted,
    /// The batch cannot be finished: it has no explicit indices and more
    /// vertices than sixteen-bit indices can number, or more explicit indices
    /// than its element count can hold.
    TooManyElements,
}

} // verus!
