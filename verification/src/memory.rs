//! The memory construct: opaque pointers and typed references, and five
//! operations for stack allocation, store, load, address-of and
//! dereference.
pub mod ops;
pub mod types;
