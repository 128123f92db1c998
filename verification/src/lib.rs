//! Parameters of a dynamic lambda, in their mutable and frozen form, and the
//! fallible result value that scripts receive.

pub mod engine;
pub mod params;
pub mod result;
