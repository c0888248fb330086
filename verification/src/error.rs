//! The ways a request can be refused.

use vstd::prelude::*;

verus! {

/// Why the library refused to compute a geometry.
#[derive(Clone, Copy, Debug, PartialEq, Eq, Structural)]
pub enum BoxFitError {
    /// The virtual width or height is zero or negative.
    InvalidResolution,
    /// The window is zero pixels wide or high, or its size is given in steps
    /// of which a pixel has none, so nothing can be fitted.
    EmptyViewport,
    /// A coordinate of the result has a numerator beyond 64 bits.
    OutOfRange,
}

} // verus!
