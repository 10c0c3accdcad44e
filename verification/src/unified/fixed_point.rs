//! Fixed point convergence: which energy component dominates an epoch.
use vstd::prelude::*;

verus! {

/// Which energy component dominates the expansion at a given epoch.
#[derive(Debug, Clone, Copy, PartialEq, Eq, Structural)]
#[non_exhaustive]
pub enum CosmicPhase {
    /// Radiation dominated (early universe, z > ~3400).
    RadiationDominated,
    /// Matter dominated (intermediate, ~0.3 < z < ~3400).
    MatterDominated,
    /// Dark energy dominated (late universe, z < ~0.3).
    DarkEnergyDominated,
}

} // verus!
