//! The value witness table construct: seven operations on value witness
//! table pointers, for type-abstract size, stride and alignment queries and
//! copy, destroy, move and buffer initialization.
pub mod ops;
