//! The opcodes of all methods as one sequence, in the order of a
//! depth-first traversal of the call graph.

pub mod model;
pub mod traversal;

pub use model::{DexParseModel, MethodBound};
