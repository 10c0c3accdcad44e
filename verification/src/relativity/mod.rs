//! General and special relativity: the classifications of intervals,
//! geodesics and spacetime metrics.
pub mod geodesic;
pub mod lorentz;
pub mod metric;
