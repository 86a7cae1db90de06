//! The control-flow graph of a method: leaders, basic blocks, dominators
//! and natural loops.

pub mod addresses;
pub mod block;
pub mod dominators;
pub mod error;
pub mod graph;
pub mod natural_loop;

pub use block::{BasicBlock, BlockView};
pub use error::CallGraphError;
pub use natural_loop::Loop;
pub use graph::{CfgView, MethodControlFlowGraph, Placed};
