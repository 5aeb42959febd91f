//! The unions construct: the tagged union type.
pub mod types;
