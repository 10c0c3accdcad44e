//! Spacetime metrics: signature conventions and the known metrics.
use vstd::prelude::*;

verus! {

/// Metric signature for classification.
#[derive(Debug, Clone, Copy, PartialEq, Eq, Structural)]
#[non_exhaustive]
pub enum MetricSignature {
    /// (-+++) Minkowski / mostly plus.
    MostlyPlus,
    /// (+---) Mostly minus (particle physics convention).
    MostlyMinus,
}

/// Known spacetime metrics.
#[derive(Debug, Clone, Copy, PartialEq, Eq, Structural)]
#[non_exhaustive]
pub enum SpacetimeMetric {
    /// Flat spacetime.
    Minkowski,
    /// Non-rotating, uncharged black hole.
    Schwarzschild,
    /// Rotating black hole (spin parameter a).
    Kerr,
    /// Expanding universe (Friedmann-Lemaitre-Robertson-Walker).
    FLRW,
    /// Charged, non-rotating black hole.
    ReissnerNordstrom,
}

} // verus!
