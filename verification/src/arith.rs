//! The arith construct: integer and floating-point arithmetic, constants,
//! comparisons, bitwise operations and casts, on primitive types only.
pub mod ops;
pub mod lowering;
pub mod semantics;
