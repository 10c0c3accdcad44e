//! Feynman diagrams: the particle kinds that appear on their lines.
use vstd::prelude::*;

verus! {

/// Classification of particles in a Feynman diagram.
#[derive(Debug, Clone, Copy, PartialEq, Eq, Structural)]
#[non_exhaustive]
pub enum ParticleType {
    /// Spin-0 scalar.
    Scalar,
    /// Spin-1/2 fermion.
    Fermion,
    /// Spin-1 photon (massless gauge boson).
    Photon,
}

} // verus!
