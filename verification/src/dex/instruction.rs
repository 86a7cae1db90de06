//! The compact form of an instruction: its opcode and, for an invoke, the
//! method it calls.

use vstd::prelude::*;
use crate::instruction::bits::{high_byte, low_byte, word_to_bytes};
use crate::instruction::decode::{decode, InstructionView};
use crate::instruction::error::InstructionError;
use crate::instruction::opcode::Opcode;

verus! {

/// An instruction reduced to its opcode and, for an instruction of the
/// invoke family, the index of the called method in the method table.
#[derive(Clone, Copy, Debug, PartialEq, Eq, Hash)]
pub struct Instruction {
    pub opcode: Opcode,
    pub m_idx: Option<u16>,
}

/// The compact form of the instruction `op` with the operands `format`.
pub open spec fn compact(op: Opcode, format: crate::instruction::format::Format) -> Instruction {
    Instruction {
        opcode: op,
        m_idx: if Opcode::is_invoke_byte(op.byte()) {
            format.method_ref()
        } else {
            None
        },
    }
}

/// What the code units from `offset` on give in compact form: nothing at
/// the end of the stream and nothing where the payload tables begin, else
/// the compact form of the instruction that [`decode`] finds there, with
/// its length, or the error that [`decode`] finds.
pub open spec fn decode_compact(code: Seq<u16>, offset: usize) -> Result<
    Option<(Instruction, usize)>,
    InstructionError,
> {
    if offset >= code.len() {
        Ok(None)
    } else if low_byte(code[offset as int]) == 0 && 1 <= high_byte(code[offset as int]) <= 3 {
        Ok(None)
    } else {
        match decode(code, offset) {
            Ok(Some((InstructionView::Regular { op, format }, n))) => Ok(Some((compact(op, format), n))),
            Ok(_) => Ok(None),
            Err(e) => Err(e),
        }
    }
}

impl Instruction {
    /// The compact form of a decoded instruction; a payload has none.
    pub fn from_decoded(instruction: &crate::instruction::decode::Instruction) -> (r: Option<Instruction>)
        ensures
            r == match instruction@ {
                InstructionView::Regular { op, format } => Some(compact(op, format)),
                _ => None,
            },
    {
        match instruction {
            crate::instruction::decode::Instruction::Regular { op, format } => {
                let m_idx = if op.is_invoke() {
                    format.method_index()
                } else {
                    None
                };
                Some(Instruction { opcode: *op, m_idx })
            },
            _ => None,
        }
    }

    /// Decodes the instruction that starts at `offset` and returns it with
    /// its length in code units. The result is `None` at the end of the
    /// stream, and at a payload table: the tables follow the last
    /// instruction of a method.
    pub fn try_from_code(code: &[u16], offset: usize) -> (r: Result<
        Option<(Instruction, usize)>,
        InstructionError,
    >)
        ensures
            r == decode_compact(code@, offset),
            r matches Ok(Some((ins, n))) ==> 1 <= n <= 5 && offset + n <= code@.len(),
    {
        if offset >= code.len() {
            return Ok(None);
        }
        let (byte, imm) = word_to_bytes(code[offset]);
        if byte == 0 && 1 <= imm && imm <= 3 {
            return Ok(None);
        }
        match crate::instruction::decode::Instruction::try_from_code(code, offset) {
            Ok(Some((instruction, n))) => {
                match Self::from_decoded(&instruction) {
                    Some(c) => Ok(Some((c, n))),
                    None => Ok(None),
                }
            },
            Ok(None) => Ok(None),
            Err(e) => Err(e),
        }
    }
}

} // verus!
