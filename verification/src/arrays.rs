//! The arrays construct: the fixed-size array type `!cir.array<N x T>` and
//! three operations to build an array, read an element and address an
//! element.
pub mod ops;
pub mod types;
