//! The generics construct: the type parameter placeholder and the
//! `cir.generic_apply` operation, both eliminated by monomorphization before
//! lowering.
pub mod ops;
pub mod types;
