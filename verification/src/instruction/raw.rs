//! Instructions as an opcode with a flat list of arguments, each marked
//! with what it is: a register, a literal, a pool index or a branch target.

use vstd::prelude::*;
use super::bits::{
    byte_to_nibbles, dword, high_byte, high_nibble, join_dwords, join_words, low_byte, low_nibble,
    qword, signed16, signed32, signed8, to_signed16, to_signed32, to_signed8, word_to_bytes,
};
use super::decode::{decode, InstructionView};
use super::error::InstructionError;
use super::opcode::{FormatKind, Opcode};

verus! {

/// The table of the DEX file that a pool index refers to.
#[derive(Clone, Copy, Debug, PartialEq, Eq, Structural)]
pub enum Type {
    String,
    Type,
    InstanceField,
    StaticField,
    Method,
    MethodHandle,
    MethodPrototype,
    CallSite,
    Prototype,
}

/// One argument of an instruction.
#[derive(Clone, Copy, Debug, PartialEq, Eq, Structural)]
pub enum Argument {
    /// A byte that holds one 8-bit register number or two 4-bit ones.
    PackedRegister(u8),
    WideRegister(u16),
    ImmediateSignedByte(i8),
    ConstantPoolIndex16(Type, u16),
    ConstantPoolIndex32(Type, u32),
    /// The high 16 bits of a literal.
    ImmediateSignedHat(i16),
    /// The 32 bits of an integer or floating-point literal.
    ImmediateSigned32(u32),
    /// The 64 bits of an integer or floating-point literal.
    ImmediateSigned64(u64),
    ImmediateSignedNibble(i8),
    ImmediateSignedShort(i16),
    BranchTarget8(i8),
    BranchTarget16(i16),
    BranchTarget32(i32),
}

/// An instruction with its arguments, its length in code units and the
/// offset at which it was found.
#[derive(Clone, Debug, PartialEq, Eq)]
pub struct Instruction {
    pub opcode: Opcode,
    pub arguments: Vec<Argument>,
    pub length: u8,
    pub offset: usize,
}

/// What an [`Instruction`] stands for.
pub struct RawView {
    pub opcode: Opcode,
    pub arguments: Seq<Argument>,
    pub length: u8,
    pub offset: usize,
}

impl View for Instruction {
    type V = RawView;

    open spec fn view(&self) -> RawView {
        RawView {
            opcode: self.opcode,
            arguments: self.arguments@,
            length: self.length,
            offset: self.offset,
        }
    }
}

/// The table that the pool index of the opcode byte `b` refers to. For an
/// opcode without a pool index the value is `Type::Type` and carries no
/// meaning.
pub open spec fn pool_of(b: u8) -> Type {
    if b == 0x1A || b == 0x1B {
        Type::String
    } else if 0x52 <= b <= 0x5F {
        Type::InstanceField
    } else if 0x60 <= b <= 0x6D {
        Type::StaticField
    } else if Opcode::is_invoke_byte(b) {
        Type::Method
    } else if b == 0xFC || b == 0xFD {
        Type::CallSite
    } else if b == 0xFE {
        Type::MethodHandle
    } else if b == 0xFF {
        Type::MethodPrototype
    } else {
        Type::Type
    }
}

/// The arguments of an instruction in the layout `kind`, in the order in
/// which its code units hold them. `pool` is the table that its pool index
/// refers to, `imm` the more significant byte of its first code unit, and
/// `w` holds the code units that follow. Two 4-bit registers that share a
/// byte are one packed argument, but for the layouts with a nibble literal
/// or a 16-bit literal or offset beside them.
pub open spec fn arguments(kind: FormatKind, pool: Type, imm: u8, w: Seq<u16>) -> Seq<Argument> {
    match kind {
        FormatKind::F10x => seq![],
        FormatKind::F12x | FormatKind::F11x => seq![Argument::PackedRegister(imm)],
        FormatKind::F11n => seq![
            Argument::PackedRegister(high_nibble(imm)),
            Argument::ImmediateSignedNibble(low_nibble(imm) as i8),
        ],
        FormatKind::F10t => seq![Argument::BranchTarget8(signed8(imm))],
        FormatKind::F20t => seq![Argument::BranchTarget16(signed16(w[0]))],
        FormatKind::F22x => seq![Argument::PackedRegister(imm), Argument::WideRegister(w[0])],
        FormatKind::F21t => seq![
            Argument::PackedRegister(imm),
            Argument::BranchTarget16(signed16(w[0])),
        ],
        FormatKind::F21s => seq![
            Argument::PackedRegister(imm),
            Argument::ImmediateSignedShort(signed16(w[0])),
        ],
        FormatKind::F21h => seq![
            Argument::PackedRegister(imm),
            Argument::ImmediateSignedHat(signed16(w[0])),
        ],
        FormatKind::F20bc | FormatKind::F21c | FormatKind::F22c | FormatKind::F22cs => seq![
            Argument::PackedRegister(imm),
            Argument::ConstantPoolIndex16(pool, w[0]),
        ],
        FormatKind::F23x => seq![
            Argument::PackedRegister(imm),
            Argument::PackedRegister(low_byte(w[0])),
            Argument::PackedRegister(high_byte(w[0])),
        ],
        FormatKind::F22b => seq![
            Argument::PackedRegister(imm),
            Argument::PackedRegister(low_byte(w[0])),
            Argument::ImmediateSignedByte(signed8(high_byte(w[0]))),
        ],
        FormatKind::F22t => seq![
            Argument::PackedRegister(high_nibble(imm)),
            Argument::PackedRegister(low_nibble(imm)),
            Argument::BranchTarget16(signed16(w[0])),
        ],
        FormatKind::F22s => seq![
            Argument::PackedRegister(high_nibble(imm)),
            Argument::PackedRegister(low_nibble(imm)),
            Argument::ImmediateSignedShort(signed16(w[0])),
        ],
        FormatKind::F30t => seq![Argument::BranchTarget32(signed32(dword(w[0], w[1])))],
        FormatKind::F32x => seq![Argument::WideRegister(w[0]), Argument::WideRegister(w[1])],
        FormatKind::F31i => seq![
            Argument::PackedRegister(imm),
            Argument::ImmediateSigned32(dword(w[0], w[1])),
        ],
        FormatKind::F31t => seq![
            Argument::PackedRegister(imm),
            Argument::BranchTarget32(signed32(dword(w[0], w[1]))),
        ],
        FormatKind::F31c => seq![
            Argument::PackedRegister(imm),
            Argument::ConstantPoolIndex32(pool, dword(w[0], w[1])),
        ],
        FormatKind::F35c | FormatKind::F35ms | FormatKind::F35mi => seq![
            Argument::PackedRegister(imm),
            Argument::ConstantPoolIndex16(pool, w[0]),
            Argument::PackedRegister(low_byte(w[1])),
            Argument::PackedRegister(high_byte(w[1])),
        ],
        FormatKind::F3rc | FormatKind::F3rms | FormatKind::F3rmi => seq![
            Argument::PackedRegister(imm),
            Argument::ConstantPoolIndex16(pool, w[0]),
            Argument::WideRegister(w[1]),
        ],
        FormatKind::F45cc => seq![
            Argument::PackedRegister(imm),
            Argument::ConstantPoolIndex16(pool, w[0]),
            Argument::PackedRegister(low_byte(w[1])),
            Argument::PackedRegister(high_byte(w[1])),
            Argument::ConstantPoolIndex16(Type::Prototype, w[2]),
        ],
        FormatKind::F4rcc => seq![
            Argument::PackedRegister(imm),
            Argument::ConstantPoolIndex16(pool, w[0]),
            Argument::WideRegister(w[1]),
            Argument::ConstantPoolIndex16(Type::Prototype, w[2]),
        ],
        FormatKind::F51l => seq![
            Argument::PackedRegister(imm),
            Argument::ImmediateSigned64(qword(dword(w[0], w[1]), dword(w[2], w[3]))),
        ],
    }
}

/// What the code units from `offset` on give as an opcode with arguments:
/// nothing at the end of the stream and nothing at a payload table, else
/// the instruction that [`decode`] finds there, or the error that it finds.
pub open spec fn decode_raw(code: Seq<u16>, offset: usize) -> Result<Option<RawView>, InstructionError> {
    match decode(code, offset) {
        Ok(Some((InstructionView::Regular { op, format }, n))) => Ok(
            Some(
                RawView {
                    opcode: op,
                    arguments: arguments(
                        op.kind(),
                        pool_of(op.byte()),
                        high_byte(code[offset as int]),
                        code.subrange(offset + 1, offset + n),
                    ),
                    length: n as u8,
                    offset,
                },
            ),
        ),
        Ok(_) => Ok(None),
        Err(e) => Err(e),
    }
}

/// The table that the pool index of an opcode refers to.
fn pool(op: Opcode) -> (r: Type)
    ensures
        r == pool_of(op.byte()),
{
    let b = op.to_u8();
    if b == 0x1A || b == 0x1B {
        Type::String
    } else if 0x52 <= b && b <= 0x5F {
        Type::InstanceField
    } else if 0x60 <= b && b <= 0x6D {
        Type::StaticField
    } else if op.is_invoke() {
        Type::Method
    } else if b == 0xFC || b == 0xFD {
        Type::CallSite
    } else if b == 0xFE {
        Type::MethodHandle
    } else if b == 0xFF {
        Type::MethodPrototype
    } else {
        Type::Type
    }
}

/// Reads the arguments of an instruction in the layout `kind` whose first
/// code unit is at `offset`.
fn read_arguments(kind: FormatKind, pool: Type, imm: u8, code: &[u16], offset: usize) -> (r: Vec<
    Argument,
>)
    requires
        offset + kind.units() <= code@.len(),
    ensures
        r@ == arguments(kind, pool, imm, code@.subrange(offset + 1, offset + kind.units())),
{
    let _ = code.len();
    let mut out: Vec<Argument> = Vec::new();
    match kind {
        FormatKind::F10x => {},
        FormatKind::F12x | FormatKind::F11x => {
            out.push(Argument::PackedRegister(imm));
        },
        FormatKind::F11n => {
            let (high, low) = byte_to_nibbles(imm);
            out.push(Argument::PackedRegister(high));
            out.push(Argument::ImmediateSignedNibble(low as i8));
        },
        FormatKind::F10t => {
            out.push(Argument::BranchTarget8(to_signed8(imm)));
        },
        FormatKind::F20t => {
            out.push(Argument::BranchTarget16(to_signed16(code[offset + 1])));
        },
        FormatKind::F22x => {
            out.push(Argument::PackedRegister(imm));
            out.push(Argument::WideRegister(code[offset + 1]));
        },
        FormatKind::F21t => {
            out.push(Argument::PackedRegister(imm));
            out.push(Argument::BranchTarget16(to_signed16(code[offset + 1])));
        },
        FormatKind::F21s => {
            out.push(Argument::PackedRegister(imm));
            out.push(Argument::ImmediateSignedShort(to_signed16(code[offset + 1])));
        },
        FormatKind::F21h => {
            out.push(Argument::PackedRegister(imm));
            out.push(Argument::ImmediateSignedHat(to_signed16(code[offset + 1])));
        },
        FormatKind::F20bc | FormatKind::F21c | FormatKind::F22c | FormatKind::F22cs => {
            out.push(Argument::PackedRegister(imm));
            out.push(Argument::ConstantPoolIndex16(pool, code[offset + 1]));
        },
        FormatKind::F23x => {
            let (low, high) = word_to_bytes(code[offset + 1]);
            out.push(Argument::PackedRegister(imm));
            out.push(Argument::PackedRegister(low));
            out.push(Argument::PackedRegister(high));
        },
        FormatKind::F22b => {
            let (low, high) = word_to_bytes(code[offset + 1]);
            out.push(Argument::PackedRegister(imm));
            out.push(Argument::PackedRegister(low));
            out.push(Argument::ImmediateSignedByte(to_signed8(high)));
        },
        FormatKind::F22t => {
            let (high, low) = byte_to_nibbles(imm);
            out.push(Argument::PackedRegister(high));
            out.push(Argument::PackedRegister(low));
            out.push(Argument::BranchTarget16(to_signed16(code[offset + 1])));
        },
        FormatKind::F22s => {
            let (high, low) = byte_to_nibbles(imm);
            out.push(Argument::PackedRegister(high));
            out.push(Argument::PackedRegister(low));
            out.push(Argument::ImmediateSignedShort(to_signed16(code[offset + 1])));
        },
        FormatKind::F30t => {
            out.push(
                Argument::BranchTarget32(to_signed32(join_words(code[offset + 1], code[offset + 2]))),
            );
        },
        FormatKind::F32x => {
            out.push(Argument::WideRegister(code[offset + 1]));
            out.push(Argument::WideRegister(code[offset + 2]));
        },
        FormatKind::F31i => {
            out.push(Argument::PackedRegister(imm));
            out.push(Argument::ImmediateSigned32(join_words(code[offset + 1], code[offset + 2])));
        },
        FormatKind::F31t => {
            out.push(Argument::PackedRegister(imm));
            out.push(
                Argument::BranchTarget32(to_signed32(join_words(code[offset + 1], code[offset + 2]))),
            );
        },
        FormatKind::F31c => {
            out.push(Argument::PackedRegister(imm));
            out.push(
                Argument::ConstantPoolIndex32(pool, join_words(code[offset + 1], code[offset + 2])),
            );
        },
        FormatKind::F35c | FormatKind::F35ms | FormatKind::F35mi => {
            let (low, high) = word_to_bytes(code[offset + 2]);
            out.push(Argument::PackedRegister(imm));
            out.push(Argument::ConstantPoolIndex16(pool, code[offset + 1]));
            out.push(Argument::PackedRegister(low));
            out.push(Argument::PackedRegister(high));
        },
        FormatKind::F3rc | FormatKind::F3rms | FormatKind::F3rmi => {
            out.push(Argument::PackedRegister(imm));
            out.push(Argument::ConstantPoolIndex16(pool, code[offset + 1]));
            out.push(Argument::WideRegister(code[offset + 2]));
        },
        FormatKind::F45cc => {
            let (low, high) = word_to_bytes(code[offset + 2]);
            out.push(Argument::PackedRegister(imm));
            out.push(Argument::ConstantPoolIndex16(pool, code[offset + 1]));
            out.push(Argument::PackedRegister(low));
            out.push(Argument::PackedRegister(high));
            out.push(Argument::ConstantPoolIndex16(Type::Prototype, code[offset + 3]));
        },
        FormatKind::F4rcc => {
            out.push(Argument::PackedRegister(imm));
            out.push(Argument::ConstantPoolIndex16(pool, code[offset + 1]));
            out.push(Argument::WideRegister(code[offset + 2]));
            out.push(Argument::ConstantPoolIndex16(Type::Prototype, code[offset + 3]));
        },
        FormatKind::F51l => {
            out.push(Argument::PackedRegister(imm));
            out.push(
                Argument::ImmediateSigned64(
                    join_dwords(
                        join_words(code[offset + 1], code[offset + 2]),
                        join_words(code[offset + 3], code[offset + 4]),
                    ),
                ),
            );
        },
    }
    assert(out@ =~= arguments(
        kind,
        pool,
        imm,
        code@.subrange(offset + 1, offset + kind.units()),
    ));
    out
}

impl Instruction {
    /// Length of the instruction in code units.
    pub fn length(&self) -> (n: u8)
        ensures
            n == self.length,
    {
        self.length
    }

    /// Decodes the instruction that starts at `offset` into its opcode
    /// and its arguments. The result is `None` at the end of the stream
    /// and at a payload table.
    pub fn try_from_raw_bytecode(raw_bytecode: &[u16], offset: usize) -> (r: Result<
        Option<Instruction>,
        InstructionError,
    >)
        ensures
            match decode_raw(raw_bytecode@, offset) {
                Ok(Some(view)) => r matches Ok(Some(ins)) && ins@ == view,
                Ok(None) => r matches Ok(None),
                Err(e) => r == Err::<Option<Instruction>, InstructionError>(e),
            },
            r matches Ok(Some(ins)) ==> 1 <= ins.length <= 5 && offset + ins.length
                <= raw_bytecode@.len(),
    {
        match super::decode::Instruction::try_from_code(raw_bytecode, offset) {
            Ok(Some((super::decode::Instruction::Regular { op, format }, n))) => {
                let (_, imm) = word_to_bytes(raw_bytecode[offset]);
                let kind = op.format_kind();
                let arguments = read_arguments(kind, pool(op), imm, raw_bytecode, offset);
                Ok(Some(Instruction { opcode: op, arguments, length: n as u8, offset }))
            },
            Ok(_) => Ok(None),
            Err(e) => Err(e),
        }
    }
}

} // verus!
