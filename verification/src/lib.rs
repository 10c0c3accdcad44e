//! Hisab-Mimamsa: the discrete core of a theoretical physics engine.
//!
//! The numerical physics (relativity, cosmology, quantum field theory and the
//! unified-field bridges) works in floating point and lives beside this crate;
//! this library holds the classifications, the counting rules and the
//! integer-valued decisions that those computations rest on, each with an
//! exact contract.
pub mod quantum_field;
pub mod relativity;
pub mod unified;
