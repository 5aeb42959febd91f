//! The enums construct: the named enum type, backed by an integer tag type,
//! and two operations to make an enum constant and to read its tag.
pub mod ops;
pub mod types;
