//! Geodesics: classification of paths through curved spacetime.
use vstd::prelude::*;

verus! {

/// Classification of geodesics.
#[derive(Debug, Clone, Copy, PartialEq, Eq, Structural)]
#[non_exhaustive]
pub enum GeodesicType {
    /// Massive particle (timelike).
    Timelike,
    /// Photon (null/lightlike).
    Null,
    /// Tachyonic (spacelike): theoretical only.
    Spacelike,
}

} // verus!
