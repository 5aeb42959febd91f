//! The optionals construct: the optional type.
pub mod types;
