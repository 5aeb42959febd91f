//! The CIR constructs: for each construct, the operations it registers, the
//! descriptions of the operations its builders create, the descriptors of
//! its types and the decisions its lowering takes.
pub mod ir;
pub mod text;
pub mod arith;
pub mod arrays;
pub mod enums;
pub mod errors;
pub mod flow;
pub mod generics;
pub mod memory;
pub mod optionals;
pub mod slices;
pub mod structs;
pub mod traits;
pub mod unions;
pub mod vwt;
