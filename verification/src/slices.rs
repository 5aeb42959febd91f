//! The slices construct: the slice type, a fat pointer of base pointer and
//! length, and the lowering of its five operations.
pub mod lowering;
pub mod ops;
pub mod types;
