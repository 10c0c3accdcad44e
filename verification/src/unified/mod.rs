//! Unified field models: cosmic phases and the counting rules of the
//! scale bridges.
pub mod fixed_point;
pub mod scale_bridge;
