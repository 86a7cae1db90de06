//! Methods of a DEX file: their compact instructions and their order.

pub mod errors;
pub mod file;
pub mod flatten;
pub mod instruction;
pub mod laws;
pub mod method;
pub mod order;
pub mod pattern;

use regex::Regex;
use vstd::prelude::*;

pub use self::errors::DexError;
pub use self::file::{DexClass, DexFile, DexMethod, MethodRef, ProtoRef};
pub use self::flatten::{flatten, CallNode};
pub use self::instruction::Instruction;
pub use self::method::{CompactMethod, Method, Signature};
pub use crate::instruction::error::InstructionError;
pub use crate::instruction::opcode::Opcode;

verus! {

/// The methods of the files in the order of the flattened call graph,
/// and the errors of the methods that could not be decoded. A method that
/// fails to decode is left out of the graph; the others are not affected.
/// Where `regexes` is given, the methods of the classes that one of them
/// matches come first.
pub fn get_methods(files: &[DexFile], regexes: Option<Vec<Regex>>) -> (r: (Vec<Method>, Vec<DexError>))
    ensures
        method::method_views(r.0@) == flatten::flattened(
            flatten::graph_of(file::all_nodes(files@, files@.len())),
            flatten::marked(flatten::regex_list(regexes)),
        ),
        errors::error_views(r.1@) == file::all_failures(files@, files@.len()),
{
    let (nodes, failures) = file::decode_methods(files);
    (flatten(nodes, regexes), failures)
}

} // verus!
