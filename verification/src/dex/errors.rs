//! Failures of method decoding.

use vstd::prelude::*;
use crate::instruction::error::InstructionError;

verus! {

/// An instruction error together with the class and the method in whose
/// code it was found.
#[derive(Debug, Clone, PartialEq, Eq)]
pub struct DexError {
    pub class_name: String,
    pub method_name: String,
    pub source: InstructionError,
}

/// What a [`DexError`] stands for.
pub struct DexErrorView {
    pub class_name: Seq<char>,
    pub method_name: Seq<char>,
    pub source: InstructionError,
}

impl View for DexError {
    type V = DexErrorView;

    open spec fn view(&self) -> DexErrorView {
        DexErrorView {
            class_name: self.class_name@,
            method_name: self.method_name@,
            source: self.source,
        }
    }
}

/// The errors of a list as what they stand for.
pub open spec fn error_views(errors: Seq<DexError>) -> Seq<DexErrorView> {
    Seq::new(errors.len(), |i: int| errors[i]@)
}

} // verus!
