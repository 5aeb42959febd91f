//! The errors construct: the error union type `!cir.error_union<T>` and five
//! operations to wrap a result, wrap an error, test for an error and read
//! the payload or the error code.
pub mod lowering;
pub mod ops;
pub mod types;
