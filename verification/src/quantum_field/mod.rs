//! Quantum field theory: field classification, running-coupling criteria,
//! Feynman-diagram particle kinds and propagator grid rules.
use vstd::prelude::*;

pub mod coupling;
pub mod feynman;
pub mod propagator;

verus! {

/// Classification of quantum fields.
#[derive(Debug, Clone, Copy, PartialEq, Eq, Structural)]
#[non_exhaustive]
pub enum FieldType {
    /// Spin-0 scalar field (Klein-Gordon).
    Scalar,
    /// Spin-1/2 fermion field (Dirac).
    Fermion,
    /// Spin-1 gauge boson field.
    GaugeBoson,
}

/// Gauge choice for gauge boson propagators.
#[derive(Debug, Clone, Copy, PartialEq, Eq, Structural)]
#[non_exhaustive]
pub enum GaugeChoice {
    /// Feynman gauge (xi = 1): simplest propagator form.
    Feynman,
}

} // verus!
