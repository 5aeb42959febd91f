//! The traits construct: the existential type for protocol-typed values and
//! six operations for witness tables, protocol dispatch and existential
//! containers.
pub mod ops;
pub mod types;
