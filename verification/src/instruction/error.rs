//! Failures of instruction decoding.

use vstd::prelude::*;
use super::opcode::Opcode;

verus! {

/// Why a code-unit stream could not be decoded at some offset.
#[derive(Clone, Copy, Debug, PartialEq, Eq, Structural)]
pub enum InstructionError {
    /// The stream ends inside the instruction that starts at `offset`:
    /// it needs `expected` code units and only `actual` are left.
    TooShort { offset: usize, opcode: Opcode, expected: usize, actual: usize },
    /// The opcode byte at the given offset is reserved.
    BadOpcode(usize, u8),
    /// The code unit at the given offset has opcode byte zero and an
    /// identifier that names no payload, or the payload it names is malformed.
    BadPayload(usize),
    /// The operands of the opcode are not in the layout the operation needs.
    BadFormat(Opcode),
    /// The code ended where an instruction was expected.
    End,
}

} // verus!
