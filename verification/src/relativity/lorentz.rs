//! Special relativity: classification of spacetime intervals.
use vstd::prelude::*;

verus! {

/// Classification of spacetime intervals.
#[derive(Debug, Clone, Copy, PartialEq, Eq, Structural)]
#[non_exhaustive]
pub enum IntervalType {
    /// Causally connected: inside the light cone.
    Timelike,
    /// On the light cone: null separation.
    Lightlike,
    /// Causally disconnected: outside the light cone.
    Spacelike,
}

} // verus!
