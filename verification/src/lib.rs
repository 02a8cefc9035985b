//! A just-in-time code generator: kernel descriptions (vector add, matrix
//! multiply, convolution, custom instruction lists) are lowered to textual,
//! target-aware intermediate representation, handed to a pluggable
//! compilation backend, and tracked in a registry with invocation statistics.

pub mod engine;
pub mod ir;
pub mod target;
pub mod text;
pub mod types;
