//! The structs construct: the named struct type and three operations to
//! build a struct, read a field and address a field.
pub mod ops;
pub mod types;
