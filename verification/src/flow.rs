//! The flow construct: four terminators for control flow, on primitive types
//! and block references only.
pub mod ops;
