//! Instructions by what they do: one variant for each group of opcodes,
//! with the operands under the names of their roles.

use vstd::prelude::*;
use super::bits::{
    to_unsigned32, to_unsigned64, to_unsigned8, unsigned32, unsigned64, unsigned8, widen8, widened8,
};
use super::decode::{decode, InstructionView};
use super::error::InstructionError;
use super::format::{
    Format, F12x, F22x, F32x, F11x, F11n, F21s, F31i, F21h, F51l, F21c, F31c, F22c, F35c, F3rc,
    F31t, F10t, F20t, F30t, F23x, F22t, F21t, F22s, F22b, F45cc, F4rcc,
};
use super::opcode::{FormatKind, Opcode};

verus! {

/// The comparisons of floating-point and long values.
#[derive(Clone, Copy, Debug, PartialEq, Eq, Structural)]
pub enum CmpKind {
    LtFloat,
    GtFloat,
    LtDouble,
    GtDouble,
    Long,
}

/// The tests of the conditional branches.
#[derive(Clone, Copy, Debug, PartialEq, Eq, Structural)]
pub enum IfTest {
    Eq,
    Ne,
    Lt,
    Ge,
    Gt,
    Le,
}

/// Reading or writing an array element or a field.
#[derive(Clone, Copy, Debug, PartialEq, Eq, Structural)]
pub enum Op {
    Get,
    Put,
}

/// The kind of value that an array or field operation moves.
#[derive(Clone, Copy, Debug, PartialEq, Eq, Structural)]
pub enum OpType {
    Single,
    Wide,
    Object,
    Boolean,
    Byte,
    Char,
    Short,
}

/// How the method of an invoke is found.
#[derive(Clone, Copy, Debug, PartialEq, Eq, Structural)]
pub enum InvokeKind {
    Virtual,
    Super,
    Direct,
    Static,
    Interface,
}

/// The operations on one value.
#[derive(Clone, Copy, Debug, PartialEq, Eq, Structural)]
pub enum UnopKind {
    NegInt,
    NotInt,
    NegLong,
    NotLong,
    NegFloat,
    NegDouble,
    IntToLong,
    IntToFloat,
    IntToDouble,
    LongToInt,
    LongToFloat,
    LongToDouble,
    FloatToInt,
    FloatToLong,
    FloatToDouble,
    DoubleToInt,
    DoubleToLong,
    DoubleToFloat,
    IntToByte,
    IntToChar,
    IntToShort,
}

/// The operations on two values.
#[derive(Clone, Copy, Debug, PartialEq, Eq, Structural)]
pub enum BinopKind {
    AddInt,
    SubInt,
    MulInt,
    DivInt,
    RemInt,
    AndInt,
    OrInt,
    XorInt,
    ShlInt,
    ShrInt,
    UshrInt,
    AddLong,
    SubLong,
    MulLong,
    DivLong,
    RemLong,
    AndLong,
    OrLong,
    XorLong,
    ShlLong,
    ShrLong,
    UshrLong,
    AddFloat,
    SubFloat,
    MulFloat,
    DivFloat,
    RemFloat,
    AddDouble,
    SubDouble,
    MulDouble,
    DivDouble,
    RemDouble,
}

/// An ordinary instruction with its operands by role.
#[derive(Clone, Copy, Debug, PartialEq, Eq, Structural)]
pub enum Instruction {
    Nop,
    Move { dst: u8, src: u8 },
    MoveFrom16 { dst: u8, src: u16 },
    Move16 { dst: u16, src: u16 },
    MoveWide { dst: u8, src: u8 },
    MoveWideFrom16 { dst: u8, src: u16 },
    MoveWide16 { dst: u16, src: u16 },
    MoveObject { dst: u8, src: u8 },
    MoveObjectFrom16 { dst: u8, src: u16 },
    MoveObject16 { dst: u16, src: u16 },
    MoveResult { dst: u8 },
    MoveResultWide { dst: u8 },
    MoveResultObject { dst: u8 },
    MoveException { dst: u8 },
    ReturnVoid,
    Return { src: u8 },
    ReturnWide { src: u8 },
    ReturnObject { src: u8 },
    Const4 { dst: u8, value: i8 },
    Const16 { dst: u8, value: i16 },
    Const { dst: u8, value: u32 },
    ConstHigh16 { dst: u8, value: i16 },
    ConstWide16 { dst: u8, value: i16 },
    ConstWide32 { dst: u8, value: i32 },
    ConstWide { dst: u8, value: u64 },
    ConstWideHigh16 { dst: u8, value: i16 },
    ConstString { dst: u8, idx: u16 },
    ConstStringJumbo { dst: u8, idx: u32 },
    ConstClass { dst: u8, idx: u16 },
    MonitorEnter { obj: u8 },
    MonitorExit { obj: u8 },
    CheckCast { obj: u8, idx: u16 },
    InstanceOf { dst: u8, obj: u8, idx: u16 },
    ArrayLength { dst: u8, obj: u8 },
    NewInstance { dst: u8, idx: u16 },
    NewArray { dst: u8, size: u8, idx: u16 },
    FilledNewArray { size: u8, idx: u16, c: u8, d: u8, e: u8, f: u8, g: u8 },
    FilledNewArrayRange { size: u8, idx: u16, first: u16 },
    FillArrayData { arr: u8, off: u32 },
    Throw { off: u8 },
    Goto { off: u8 },
    Goto16 { off: i16 },
    Goto32 { off: i32 },
    PackedSwitch { reg: u8, off: i32 },
    SparseSwitch { reg: u8, off: i32 },
    CmpKind { kind: CmpKind, dst: u8, src0: u8, src1: u8 },
    IfTest { kind: IfTest, a: u8, b: u8, off: i16 },
    IfTestZ { kind: IfTest, a: u8, off: i16 },
    ArrayOp { kind: Op, kind_type: OpType, val: u8, arr: u8, idx: u8 },
    InstanceOp { val: u8, obj: u8, idx: u16 },
    StaticOp { val: u8, idx: u16 },
    Invoke { kind: InvokeKind, argc: u8, idx: u16, c: u8, d: u8, e: u8, f: u8, g: u8 },
    InvokeRange { kind: InvokeKind, argc: u8, idx: u16, first: u16 },
    Unop { kind: UnopKind, dst: u8, src: u8 },
    Binop { kind: BinopKind, dst: u8, src0: u8, src1: u8 },
    Binop2Addr { kind: BinopKind, dst: u8, src: u8 },
    BinopLit { kind: BinopKind, dst: u8, src: u8, lit: i16 },
    InvokePolymorphic { argc: u8, midx: u16, recv: u8, pidx: u16, d: u8, e: u8, f: u8, g: u8 },
    InvokePolymorphicRange { argc: u8, midx: u16, recv: u16, pidx: u16 },
    InvokeCustom { argc: u8, idx: u16, c: u8, d: u8, e: u8, f: u8, g: u8 },
    InvokeCustomRange { argc: u8, idx: u16, first: u16 },
    ConstMethodHandle { dst: u8, idx: u16 },
    ConstMethodType { dst: u8, idx: u16 },
}

/// The instructions of the layout 10x by role.
pub open spec fn role_10x(op: Opcode) -> Option<Instruction> {
    match op {
        Opcode::Nop => Some(Instruction::Nop),
        Opcode::ReturnVoid => Some(Instruction::ReturnVoid),
        _ => None,
    }
}

/// Reads an instruction of the layout 10x by role.
fn read_10x(op: Opcode) -> (r: Option<Instruction>)
    ensures
        r == role_10x(op),
        op.kind() == FormatKind::F10x ==> r is Some,
{
    match op {
        Opcode::Nop => Some(Instruction::Nop),
        Opcode::ReturnVoid => Some(Instruction::ReturnVoid),
        _ => None,
    }
}

/// The instructions of the layout 12x by role.
pub open spec fn role_12x(op: Opcode, f: F12x) -> Option<Instruction> {
    match op {
        Opcode::Move => Some(Instruction::Move { dst: f.va, src: f.vb }),
        Opcode::MoveWide => Some(Instruction::MoveWide { dst: f.va, src: f.vb }),
        Opcode::MoveObject => Some(Instruction::MoveObject { dst: f.va, src: f.vb }),
        Opcode::ArrayLength => Some(Instruction::ArrayLength { dst: f.va, obj: f.vb }),
        Opcode::NegInt => Some(Instruction::Unop { kind: UnopKind::NegInt, dst: f.va, src: f.vb }),
        Opcode::NotInt => Some(Instruction::Unop { kind: UnopKind::NotInt, dst: f.va, src: f.vb }),
        Opcode::NegLong => Some(
            Instruction::Unop {
                kind: UnopKind::NegLong,
                dst: f.va,
                src: f.vb,
            },
        ),
        Opcode::NotLong => Some(
            Instruction::Unop {
                kind: UnopKind::NotLong,
                dst: f.va,
                src: f.vb,
            },
        ),
        Opcode::NegFloat => Some(
            Instruction::Unop {
                kind: UnopKind::NegFloat,
                dst: f.va,
                src: f.vb,
            },
        ),
        Opcode::NegDouble => Some(
            Instruction::Unop {
                kind: UnopKind::NegDouble,
                dst: f.va,
                src: f.vb,
            },
        ),
        Opcode::IntToLong => Some(
            Instruction::Unop {
                kind: UnopKind::IntToLong,
                dst: f.va,
                src: f.vb,
            },
        ),
        Opcode::IntToFloat => Some(
            Instruction::Unop {
                kind: UnopKind::IntToFloat,
                dst: f.va,
                src: f.vb,
            },
        ),
        Opcode::IntToDouble => Some(
            Instruction::Unop {
                kind: UnopKind::IntToDouble,
                dst: f.va,
                src: f.vb,
            },
        ),
        Opcode::LongToInt => Some(
            Instruction::Unop {
                kind: UnopKind::LongToInt,
                dst: f.va,
                src: f.vb,
            },
        ),
        Opcode::LongToFloat => Some(
            Instruction::Unop {
                kind: UnopKind::LongToFloat,
                dst: f.va,
                src: f.vb,
            },
        ),
        Opcode::LongToDouble => Some(
            Instruction::Unop {
                kind: UnopKind::LongToDouble,
                dst: f.va,
                src: f.vb,
            },
        ),
        Opcode::FloatToInt => Some(
            Instruction::Unop {
                kind: UnopKind::FloatToInt,
                dst: f.va,
                src: f.vb,
            },
        ),
        Opcode::FloatToLong => Some(
            Instruction::Unop {
                kind: UnopKind::FloatToLong,
                dst: f.va,
                src: f.vb,
            },
        ),
        Opcode::FloatToDouble => Some(
            Instruction::Unop {
                kind: UnopKind::FloatToDouble,
                dst: f.va,
                src: f.vb,
            },
        ),
        Opcode::DoubleToInt => Some(
            Instruction::Unop {
                kind: UnopKind::DoubleToInt,
                dst: f.va,
                src: f.vb,
            },
        ),
        Opcode::DoubleToLong => Some(
            Instruction::Unop {
                kind: UnopKind::DoubleToLong,
                dst: f.va,
                src: f.vb,
            },
        ),
        Opcode::DoubleToFloat => Some(
            Instruction::Unop {
                kind: UnopKind::DoubleToFloat,
                dst: f.va,
                src: f.vb,
            },
        ),
        Opcode::IntToByte => Some(
            Instruction::Unop {
                kind: UnopKind::IntToByte,
                dst: f.va,
                src: f.vb,
            },
        ),
        Opcode::IntToChar => Some(
            Instruction::Unop {
                kind: UnopKind::IntToChar,
                dst: f.va,
                src: f.vb,
            },
        ),
        Opcode::IntToShort => Some(
            Instruction::Unop {
                kind: UnopKind::IntToShort,
                dst: f.va,
                src: f.vb,
            },
        ),
        Opcode::AddInt2addr => Some(
            Instruction::Binop2Addr {
                kind: BinopKind::AddInt,
                dst: f.va,
                src: f.vb,
            },
        ),
        Opcode::SubInt2addr => Some(
            Instruction::Binop2Addr {
                kind: BinopKind::SubInt,
                dst: f.va,
                src: f.vb,
            },
        ),
        Opcode::MulInt2addr => Some(
            Instruction::Binop2Addr {
                kind: BinopKind::MulInt,
                dst: f.va,
                src: f.vb,
            },
        ),
        Opcode::DivInt2addr => Some(
            Instruction::Binop2Addr {
                kind: BinopKind::DivInt,
                dst: f.va,
                src: f.vb,
            },
        ),
        Opcode::RemInt2addr => Some(
            Instruction::Binop2Addr {
                kind: BinopKind::RemInt,
                dst: f.va,
                src: f.vb,
            },
        ),
        Opcode::AndInt2addr => Some(
            Instruction::Binop2Addr {
                kind: BinopKind::AndInt,
                dst: f.va,
                src: f.vb,
            },
        ),
        Opcode::OrInt2addr => Some(
            Instruction::Binop2Addr {
                kind: BinopKind::OrInt,
                dst: f.va,
                src: f.vb,
            },
        ),
        Opcode::XorInt2addr => Some(
            Instruction::Binop2Addr {
                kind: BinopKind::XorInt,
                dst: f.va,
                src: f.vb,
            },
        ),
        Opcode::ShlInt2addr => Some(
            Instruction::Binop2Addr {
                kind: BinopKind::ShlInt,
                dst: f.va,
                src: f.vb,
            },
        ),
        Opcode::ShrInt2addr => Some(
            Instruction::Binop2Addr {
                kind: BinopKind::ShrInt,
                dst: f.va,
                src: f.vb,
            },
        ),
        Opcode::UshrInt2addr => Some(
            Instruction::Binop2Addr {
                kind: BinopKind::UshrInt,
                dst: f.va,
                src: f.vb,
            },
        ),
        Opcode::AddLong2addr => Some(
            Instruction::Binop2Addr {
                kind: BinopKind::AddLong,
                dst: f.va,
                src: f.vb,
            },
        ),
        Opcode::SubLong2addr => Some(
            Instruction::Binop2Addr {
                kind: BinopKind::SubLong,
                dst: f.va,
                src: f.vb,
            },
        ),
        Opcode::MulLong2addr => Some(
            Instruction::Binop2Addr {
                kind: BinopKind::MulLong,
                dst: f.va,
                src: f.vb,
            },
        ),
        Opcode::DivLong2addr => Some(
            Instruction::Binop2Addr {
                kind: BinopKind::DivLong,
                dst: f.va,
                src: f.vb,
            },
        ),
        Opcode::RemLong2addr => Some(
            Instruction::Binop2Addr {
                kind: BinopKind::RemLong,
                dst: f.va,
                src: f.vb,
            },
        ),
        Opcode::AndLong2addr => Some(
            Instruction::Binop2Addr {
                kind: BinopKind::AndLong,
                dst: f.va,
                src: f.vb,
            },
        ),
        Opcode::OrLong2addr => Some(
            Instruction::Binop2Addr {
                kind: BinopKind::OrLong,
                dst: f.va,
                src: f.vb,
            },
        ),
        Opcode::XorLong2addr => Some(
            Instruction::Binop2Addr {
                kind: BinopKind::XorLong,
                dst: f.va,
                src: f.vb,
            },
        ),
        Opcode::ShlLong2addr => Some(
            Instruction::Binop2Addr {
                kind: BinopKind::ShlLong,
                dst: f.va,
                src: f.vb,
            },
        ),
        Opcode::ShrLong2addr => Some(
            Instruction::Binop2Addr {
                kind: BinopKind::ShrLong,
                dst: f.va,
                src: f.vb,
            },
        ),
        Opcode::UshrLong2addr => Some(
            Instruction::Binop2Addr {
                kind: BinopKind::UshrLong,
                dst: f.va,
                src: f.vb,
            },
        ),
        Opcode::AddFloat2addr => Some(
            Instruction::Binop2Addr {
                kind: BinopKind::AddFloat,
                dst: f.va,
                src: f.vb,
            },
        ),
        Opcode::SubFloat2addr => Some(
            Instruction::Binop2Addr {
                kind: BinopKind::SubFloat,
                dst: f.va,
                src: f.vb,
            },
        ),
        Opcode::MulFloat2addr => Some(
            Instruction::Binop2Addr {
                kind: BinopKind::MulFloat,
                dst: f.va,
                src: f.vb,
            },
        ),
        Opcode::DivFloat2addr => Some(
            Instruction::Binop2Addr {
                kind: BinopKind::DivFloat,
                dst: f.va,
                src: f.vb,
            },
        ),
        Opcode::RemFloat2addr => Some(
            Instruction::Binop2Addr {
                kind: BinopKind::RemFloat,
                dst: f.va,
                src: f.vb,
            },
        ),
        Opcode::AddDouble2addr => Some(
            Instruction::Binop2Addr {
                kind: BinopKind::AddDouble,
                dst: f.va,
                src: f.vb,
            },
        ),
        Opcode::SubDouble2addr => Some(
            Instruction::Binop2Addr {
                kind: BinopKind::SubDouble,
                dst: f.va,
                src: f.vb,
            },
        ),
        Opcode::MulDouble2addr => Some(
            Instruction::Binop2Addr {
                kind: BinopKind::MulDouble,
                dst: f.va,
                src: f.vb,
            },
        ),
        Opcode::DivDouble2addr => Some(
            Instruction::Binop2Addr {
                kind: BinopKind::DivDouble,
                dst: f.va,
                src: f.vb,
            },
        ),
        Opcode::RemDouble2addr => Some(
            Instruction::Binop2Addr {
                kind: BinopKind::RemDouble,
                dst: f.va,
                src: f.vb,
            },
        ),
        _ => None,
    }
}

/// Reads an instruction of the layout 12x by role.
fn read_12x(op: Opcode, f: F12x) -> (r: Option<Instruction>)
    ensures
        r == role_12x(op, f),
        op.kind() == FormatKind::F12x ==> r is Some,
{
    match op {
        Opcode::Move => Some(Instruction::Move { dst: f.va, src: f.vb }),
        Opcode::MoveWide => Some(Instruction::MoveWide { dst: f.va, src: f.vb }),
        Opcode::MoveObject => Some(Instruction::MoveObject { dst: f.va, src: f.vb }),
        Opcode::ArrayLength => Some(Instruction::ArrayLength { dst: f.va, obj: f.vb }),
        Opcode::NegInt => Some(Instruction::Unop { kind: UnopKind::NegInt, dst: f.va, src: f.vb }),
        Opcode::NotInt => Some(Instruction::Unop { kind: UnopKind::NotInt, dst: f.va, src: f.vb }),
        Opcode::NegLong => Some(
            Instruction::Unop {
                kind: UnopKind::NegLong,
                dst: f.va,
                src: f.vb,
            },
        ),
        Opcode::NotLong => Some(
            Instruction::Unop {
                kind: UnopKind::NotLong,
                dst: f.va,
                src: f.vb,
            },
        ),
        Opcode::NegFloat => Some(
            Instruction::Unop {
                kind: UnopKind::NegFloat,
                dst: f.va,
                src: f.vb,
            },
        ),
        Opcode::NegDouble => Some(
            Instruction::Unop {
                kind: UnopKind::NegDouble,
                dst: f.va,
                src: f.vb,
            },
        ),
        Opcode::IntToLong => Some(
            Instruction::Unop {
                kind: UnopKind::IntToLong,
                dst: f.va,
                src: f.vb,
            },
        ),
        Opcode::IntToFloat => Some(
            Instruction::Unop {
                kind: UnopKind::IntToFloat,
                dst: f.va,
                src: f.vb,
            },
        ),
        Opcode::IntToDouble => Some(
            Instruction::Unop {
                kind: UnopKind::IntToDouble,
                dst: f.va,
                src: f.vb,
            },
        ),
        Opcode::LongToInt => Some(
            Instruction::Unop {
                kind: UnopKind::LongToInt,
                dst: f.va,
                src: f.vb,
            },
        ),
        Opcode::LongToFloat => Some(
            Instruction::Unop {
                kind: UnopKind::LongToFloat,
                dst: f.va,
                src: f.vb,
            },
        ),
        Opcode::LongToDouble => Some(
            Instruction::Unop {
                kind: UnopKind::LongToDouble,
                dst: f.va,
                src: f.vb,
            },
        ),
        Opcode::FloatToInt => Some(
            Instruction::Unop {
                kind: UnopKind::FloatToInt,
                dst: f.va,
                src: f.vb,
            },
        ),
        Opcode::FloatToLong => Some(
            Instruction::Unop {
                kind: UnopKind::FloatToLong,
                dst: f.va,
                src: f.vb,
            },
        ),
        Opcode::FloatToDouble => Some(
            Instruction::Unop {
                kind: UnopKind::FloatToDouble,
                dst: f.va,
                src: f.vb,
            },
        ),
        Opcode::DoubleToInt => Some(
            Instruction::Unop {
                kind: UnopKind::DoubleToInt,
                dst: f.va,
                src: f.vb,
            },
        ),
        Opcode::DoubleToLong => Some(
            Instruction::Unop {
                kind: UnopKind::DoubleToLong,
                dst: f.va,
                src: f.vb,
            },
        ),
        Opcode::DoubleToFloat => Some(
            Instruction::Unop {
                kind: UnopKind::DoubleToFloat,
                dst: f.va,
                src: f.vb,
            },
        ),
        Opcode::IntToByte => Some(
            Instruction::Unop {
                kind: UnopKind::IntToByte,
                dst: f.va,
                src: f.vb,
            },
        ),
        Opcode::IntToChar => Some(
            Instruction::Unop {
                kind: UnopKind::IntToChar,
                dst: f.va,
                src: f.vb,
            },
        ),
        Opcode::IntToShort => Some(
            Instruction::Unop {
                kind: UnopKind::IntToShort,
                dst: f.va,
                src: f.vb,
            },
        ),
        Opcode::AddInt2addr => Some(
            Instruction::Binop2Addr {
                kind: BinopKind::AddInt,
                dst: f.va,
                src: f.vb,
            },
        ),
        Opcode::SubInt2addr => Some(
            Instruction::Binop2Addr {
                kind: BinopKind::SubInt,
                dst: f.va,
                src: f.vb,
            },
        ),
        Opcode::MulInt2addr => Some(
            Instruction::Binop2Addr {
                kind: BinopKind::MulInt,
                dst: f.va,
                src: f.vb,
            },
        ),
        Opcode::DivInt2addr => Some(
            Instruction::Binop2Addr {
                kind: BinopKind::DivInt,
                dst: f.va,
                src: f.vb,
            },
        ),
        Opcode::RemInt2addr => Some(
            Instruction::Binop2Addr {
                kind: BinopKind::RemInt,
                dst: f.va,
                src: f.vb,
            },
        ),
        Opcode::AndInt2addr => Some(
            Instruction::Binop2Addr {
                kind: BinopKind::AndInt,
                dst: f.va,
                src: f.vb,
            },
        ),
        Opcode::OrInt2addr => Some(
            Instruction::Binop2Addr {
                kind: BinopKind::OrInt,
                dst: f.va,
                src: f.vb,
            },
        ),
        Opcode::XorInt2addr => Some(
            Instruction::Binop2Addr {
                kind: BinopKind::XorInt,
                dst: f.va,
                src: f.vb,
            },
        ),
        Opcode::ShlInt2addr => Some(
            Instruction::Binop2Addr {
                kind: BinopKind::ShlInt,
                dst: f.va,
                src: f.vb,
            },
        ),
        Opcode::ShrInt2addr => Some(
            Instruction::Binop2Addr {
                kind: BinopKind::ShrInt,
                dst: f.va,
                src: f.vb,
            },
        ),
        Opcode::UshrInt2addr => Some(
            Instruction::Binop2Addr {
                kind: BinopKind::UshrInt,
                dst: f.va,
                src: f.vb,
            },
        ),
        Opcode::AddLong2addr => Some(
            Instruction::Binop2Addr {
                kind: BinopKind::AddLong,
                dst: f.va,
                src: f.vb,
            },
        ),
        Opcode::SubLong2addr => Some(
            Instruction::Binop2Addr {
                kind: BinopKind::SubLong,
                dst: f.va,
                src: f.vb,
            },
        ),
        Opcode::MulLong2addr => Some(
            Instruction::Binop2Addr {
                kind: BinopKind::MulLong,
                dst: f.va,
                src: f.vb,
            },
        ),
        Opcode::DivLong2addr => Some(
            Instruction::Binop2Addr {
                kind: BinopKind::DivLong,
                dst: f.va,
                src: f.vb,
            },
        ),
        Opcode::RemLong2addr => Some(
            Instruction::Binop2Addr {
                kind: BinopKind::RemLong,
                dst: f.va,
                src: f.vb,
            },
        ),
        Opcode::AndLong2addr => Some(
            Instruction::Binop2Addr {
                kind: BinopKind::AndLong,
                dst: f.va,
                src: f.vb,
            },
        ),
        Opcode::OrLong2addr => Some(
            Instruction::Binop2Addr {
                kind: BinopKind::OrLong,
                dst: f.va,
                src: f.vb,
            },
        ),
        Opcode::XorLong2addr => Some(
            Instruction::Binop2Addr {
                kind: BinopKind::XorLong,
                dst: f.va,
                src: f.vb,
            },
        ),
        Opcode::ShlLong2addr => Some(
            Instruction::Binop2Addr {
                kind: BinopKind::ShlLong,
                dst: f.va,
                src: f.vb,
            },
        ),
        Opcode::ShrLong2addr => Some(
            Instruction::Binop2Addr {
                kind: BinopKind::ShrLong,
                dst: f.va,
                src: f.vb,
            },
        ),
        Opcode::UshrLong2addr => Some(
            Instruction::Binop2Addr {
                kind: BinopKind::UshrLong,
                dst: f.va,
                src: f.vb,
            },
        ),
        Opcode::AddFloat2addr => Some(
            Instruction::Binop2Addr {
                kind: BinopKind::AddFloat,
                dst: f.va,
                src: f.vb,
            },
        ),
        Opcode::SubFloat2addr => Some(
            Instruction::Binop2Addr {
                kind: BinopKind::SubFloat,
                dst: f.va,
                src: f.vb,
            },
        ),
        Opcode::MulFloat2addr => Some(
            Instruction::Binop2Addr {
                kind: BinopKind::MulFloat,
                dst: f.va,
                src: f.vb,
            },
        ),
        Opcode::DivFloat2addr => Some(
            Instruction::Binop2Addr {
                kind: BinopKind::DivFloat,
                dst: f.va,
                src: f.vb,
            },
        ),
        Opcode::RemFloat2addr => Some(
            Instruction::Binop2Addr {
                kind: BinopKind::RemFloat,
                dst: f.va,
                src: f.vb,
            },
        ),
        Opcode::AddDouble2addr => Some(
            Instruction::Binop2Addr {
                kind: BinopKind::AddDouble,
                dst: f.va,
                src: f.vb,
            },
        ),
        Opcode::SubDouble2addr => Some(
            Instruction::Binop2Addr {
                kind: BinopKind::SubDouble,
                dst: f.va,
                src: f.vb,
            },
        ),
        Opcode::MulDouble2addr => Some(
            Instruction::Binop2Addr {
                kind: BinopKind::MulDouble,
                dst: f.va,
                src: f.vb,
            },
        ),
        Opcode::DivDouble2addr => Some(
            Instruction::Binop2Addr {
                kind: BinopKind::DivDouble,
                dst: f.va,
                src: f.vb,
            },
        ),
        Opcode::RemDouble2addr => Some(
            Instruction::Binop2Addr {
                kind: BinopKind::RemDouble,
                dst: f.va,
                src: f.vb,
            },
        ),
        _ => None,
    }
}

/// The instructions of the layout 22x by role.
pub open spec fn role_22x(op: Opcode, f: F22x) -> Option<Instruction> {
    match op {
        Opcode::MoveFrom16 => Some(Instruction::MoveFrom16 { dst: f.va, src: f.vb }),
        Opcode::MoveWideFrom16 => Some(Instruction::MoveWideFrom16 { dst: f.va, src: f.vb }),
        Opcode::MoveObjectFrom16 => Some(Instruction::MoveObjectFrom16 { dst: f.va, src: f.vb }),
        _ => None,
    }
}

/// Reads an instruction of the layout 22x by role.
fn read_22x(op: Opcode, f: F22x) -> (r: Option<Instruction>)
    ensures
        r == role_22x(op, f),
        op.kind() == FormatKind::F22x ==> r is Some,
{
    match op {
        Opcode::MoveFrom16 => Some(Instruction::MoveFrom16 { dst: f.va, src: f.vb }),
        Opcode::MoveWideFrom16 => Some(Instruction::MoveWideFrom16 { dst: f.va, src: f.vb }),
        Opcode::MoveObjectFrom16 => Some(Instruction::MoveObjectFrom16 { dst: f.va, src: f.vb }),
        _ => None,
    }
}

/// The instructions of the layout 32x by role.
pub open spec fn role_32x(op: Opcode, f: F32x) -> Option<Instruction> {
    match op {
        Opcode::Move16 => Some(Instruction::Move16 { dst: f.va, src: f.vb }),
        Opcode::MoveWide16 => Some(Instruction::MoveWide16 { dst: f.va, src: f.vb }),
        Opcode::MoveObject16 => Some(Instruction::MoveObject16 { dst: f.va, src: f.vb }),
        _ => None,
    }
}

/// Reads an instruction of the layout 32x by role.
fn read_32x(op: Opcode, f: F32x) -> (r: Option<Instruction>)
    ensures
        r == role_32x(op, f),
        op.kind() == FormatKind::F32x ==> r is Some,
{
    match op {
        Opcode::Move16 => Some(Instruction::Move16 { dst: f.va, src: f.vb }),
        Opcode::MoveWide16 => Some(Instruction::MoveWide16 { dst: f.va, src: f.vb }),
        Opcode::MoveObject16 => Some(Instruction::MoveObject16 { dst: f.va, src: f.vb }),
        _ => None,
    }
}

/// The instructions of the layout 11x by role.
pub open spec fn role_11x(op: Opcode, f: F11x) -> Option<Instruction> {
    match op {
        Opcode::MoveResult => Some(Instruction::MoveResult { dst: f.va }),
        Opcode::MoveResultWide => Some(Instruction::MoveResultWide { dst: f.va }),
        Opcode::MoveResultObject => Some(Instruction::MoveResultObject { dst: f.va }),
        Opcode::MoveException => Some(Instruction::MoveException { dst: f.va }),
        Opcode::Return => Some(Instruction::Return { src: f.va }),
        Opcode::ReturnWide => Some(Instruction::ReturnWide { src: f.va }),
        Opcode::ReturnObject => Some(Instruction::ReturnObject { src: f.va }),
        Opcode::MonitorEnter => Some(Instruction::MonitorEnter { obj: f.va }),
        Opcode::MonitorExit => Some(Instruction::MonitorExit { obj: f.va }),
        Opcode::Throw => Some(Instruction::Throw { off: f.va }),
        _ => None,
    }
}

/// Reads an instruction of the layout 11x by role.
fn read_11x(op: Opcode, f: F11x) -> (r: Option<Instruction>)
    ensures
        r == role_11x(op, f),
        op.kind() == FormatKind::F11x ==> r is Some,
{
    match op {
        Opcode::MoveResult => Some(Instruction::MoveResult { dst: f.va }),
        Opcode::MoveResultWide => Some(Instruction::MoveResultWide { dst: f.va }),
        Opcode::MoveResultObject => Some(Instruction::MoveResultObject { dst: f.va }),
        Opcode::MoveException => Some(Instruction::MoveException { dst: f.va }),
        Opcode::Return => Some(Instruction::Return { src: f.va }),
        Opcode::ReturnWide => Some(Instruction::ReturnWide { src: f.va }),
        Opcode::ReturnObject => Some(Instruction::ReturnObject { src: f.va }),
        Opcode::MonitorEnter => Some(Instruction::MonitorEnter { obj: f.va }),
        Opcode::MonitorExit => Some(Instruction::MonitorExit { obj: f.va }),
        Opcode::Throw => Some(Instruction::Throw { off: f.va }),
        _ => None,
    }
}

/// The instructions of the layout 11n by role.
pub open spec fn role_11n(op: Opcode, f: F11n) -> Option<Instruction> {
    match op {
        Opcode::Const4 => Some(Instruction::Const4 { dst: f.va, value: f.literal }),
        _ => None,
    }
}

/// Reads an instruction of the layout 11n by role.
fn read_11n(op: Opcode, f: F11n) -> (r: Option<Instruction>)
    ensures
        r == role_11n(op, f),
        op.kind() == FormatKind::F11n ==> r is Some,
{
    match op {
        Opcode::Const4 => Some(Instruction::Const4 { dst: f.va, value: f.literal }),
        _ => None,
    }
}

/// The instructions of the layout 21s by role.
pub open spec fn role_21s(op: Opcode, f: F21s) -> Option<Instruction> {
    match op {
        Opcode::Const16 => Some(Instruction::Const16 { dst: f.va, value: f.literal }),
        Opcode::ConstWide16 => Some(Instruction::ConstWide16 { dst: f.va, value: f.literal }),
        _ => None,
    }
}

/// Reads an instruction of the layout 21s by role.
fn read_21s(op: Opcode, f: F21s) -> (r: Option<Instruction>)
    ensures
        r == role_21s(op, f),
        op.kind() == FormatKind::F21s ==> r is Some,
{
    match op {
        Opcode::Const16 => Some(Instruction::Const16 { dst: f.va, value: f.literal }),
        Opcode::ConstWide16 => Some(Instruction::ConstWide16 { dst: f.va, value: f.literal }),
        _ => None,
    }
}

/// The instructions of the layout 31i by role.
pub open spec fn role_31i(op: Opcode, f: F31i) -> Option<Instruction> {
    match op {
        Opcode::Const => Some(Instruction::Const { dst: f.va, value: unsigned32(f.literal) }),
        Opcode::ConstWide32 => Some(Instruction::ConstWide32 { dst: f.va, value: f.literal }),
        _ => None,
    }
}

/// Reads an instruction of the layout 31i by role.
fn read_31i(op: Opcode, f: F31i) -> (r: Option<Instruction>)
    ensures
        r == role_31i(op, f),
        op.kind() == FormatKind::F31i ==> r is Some,
{
    match op {
        Opcode::Const => Some(Instruction::Const { dst: f.va, value: to_unsigned32(f.literal) }),
        Opcode::ConstWide32 => Some(Instruction::ConstWide32 { dst: f.va, value: f.literal }),
        _ => None,
    }
}

/// The instructions of the layout 21h by role.
pub open spec fn role_21h(op: Opcode, f: F21h) -> Option<Instruction> {
    match op {
        Opcode::ConstHigh16 => Some(Instruction::ConstHigh16 { dst: f.va, value: f.literal }),
        Opcode::ConstWideHigh16 => Some(
            Instruction::ConstWideHigh16 {
                dst: f.va,
                value: f.literal,
            },
        ),
        _ => None,
    }
}

/// Reads an instruction of the layout 21h by role.
fn read_21h(op: Opcode, f: F21h) -> (r: Option<Instruction>)
    ensures
        r == role_21h(op, f),
        op.kind() == FormatKind::F21h ==> r is Some,
{
    match op {
        Opcode::ConstHigh16 => Some(Instruction::ConstHigh16 { dst: f.va, value: f.literal }),
        Opcode::ConstWideHigh16 => Some(
            Instruction::ConstWideHigh16 {
                dst: f.va,
                value: f.literal,
            },
        ),
        _ => None,
    }
}

/// The instructions of the layout 51l by role.
pub open spec fn role_51l(op: Opcode, f: F51l) -> Option<Instruction> {
    match op {
        Opcode::ConstWide => Some(
            Instruction::ConstWide {
                dst: f.va,
                value: unsigned64(f.literal),
            },
        ),
        _ => None,
    }
}

/// Reads an instruction of the layout 51l by role.
fn read_51l(op: Opcode, f: F51l) -> (r: Option<Instruction>)
    ensures
        r == role_51l(op, f),
        op.kind() == FormatKind::F51l ==> r is Some,
{
    match op {
        Opcode::ConstWide => Some(
            Instruction::ConstWide {
                dst: f.va,
                value: to_unsigned64(f.literal),
            },
        ),
        _ => None,
    }
}

/// The instructions of the layout 21c by role.
pub open spec fn role_21c(op: Opcode, f: F21c) -> Option<Instruction> {
    match op {
        Opcode::ConstString => Some(Instruction::ConstString { dst: f.dst, idx: f.idx }),
        Opcode::ConstClass => Some(Instruction::ConstClass { dst: f.dst, idx: f.idx }),
        Opcode::CheckCast => Some(Instruction::CheckCast { obj: f.dst, idx: f.idx }),
        Opcode::NewInstance => Some(Instruction::NewInstance { dst: f.dst, idx: f.idx }),
        Opcode::Sget => Some(Instruction::StaticOp { val: f.dst, idx: f.idx }),
        Opcode::SgetWide => Some(Instruction::StaticOp { val: f.dst, idx: f.idx }),
        Opcode::SgetObject => Some(Instruction::StaticOp { val: f.dst, idx: f.idx }),
        Opcode::SgetBoolean => Some(Instruction::StaticOp { val: f.dst, idx: f.idx }),
        Opcode::SgetByte => Some(Instruction::StaticOp { val: f.dst, idx: f.idx }),
        Opcode::SgetChar => Some(Instruction::StaticOp { val: f.dst, idx: f.idx }),
        Opcode::SgetShort => Some(Instruction::StaticOp { val: f.dst, idx: f.idx }),
        Opcode::Sput => Some(Instruction::StaticOp { val: f.dst, idx: f.idx }),
        Opcode::SputWide => Some(Instruction::StaticOp { val: f.dst, idx: f.idx }),
        Opcode::SputObject => Some(Instruction::StaticOp { val: f.dst, idx: f.idx }),
        Opcode::SputBoolean => Some(Instruction::StaticOp { val: f.dst, idx: f.idx }),
        Opcode::SputByte => Some(Instruction::StaticOp { val: f.dst, idx: f.idx }),
        Opcode::SputChar => Some(Instruction::StaticOp { val: f.dst, idx: f.idx }),
        Opcode::SputShort => Some(Instruction::StaticOp { val: f.dst, idx: f.idx }),
        Opcode::ConstMethodHandle => Some(
            Instruction::ConstMethodHandle {
                dst: f.dst,
                idx: f.idx,
            },
        ),
        Opcode::ConstMethodType => Some(Instruction::ConstMethodType { dst: f.dst, idx: f.idx }),
        _ => None,
    }
}

/// Reads an instruction of the layout 21c by role.
fn read_21c(op: Opcode, f: F21c) -> (r: Option<Instruction>)
    ensures
        r == role_21c(op, f),
        op.kind() == FormatKind::F21c ==> r is Some,
{
    match op {
        Opcode::ConstString => Some(Instruction::ConstString { dst: f.dst, idx: f.idx }),
        Opcode::ConstClass => Some(Instruction::ConstClass { dst: f.dst, idx: f.idx }),
        Opcode::CheckCast => Some(Instruction::CheckCast { obj: f.dst, idx: f.idx }),
        Opcode::NewInstance => Some(Instruction::NewInstance { dst: f.dst, idx: f.idx }),
        Opcode::Sget => Some(Instruction::StaticOp { val: f.dst, idx: f.idx }),
        Opcode::SgetWide => Some(Instruction::StaticOp { val: f.dst, idx: f.idx }),
        Opcode::SgetObject => Some(Instruction::StaticOp { val: f.dst, idx: f.idx }),
        Opcode::SgetBoolean => Some(Instruction::StaticOp { val: f.dst, idx: f.idx }),
        Opcode::SgetByte => Some(Instruction::StaticOp { val: f.dst, idx: f.idx }),
        Opcode::SgetChar => Some(Instruction::StaticOp { val: f.dst, idx: f.idx }),
        Opcode::SgetShort => Some(Instruction::StaticOp { val: f.dst, idx: f.idx }),
        Opcode::Sput => Some(Instruction::StaticOp { val: f.dst, idx: f.idx }),
        Opcode::SputWide => Some(Instruction::StaticOp { val: f.dst, idx: f.idx }),
        Opcode::SputObject => Some(Instruction::StaticOp { val: f.dst, idx: f.idx }),
        Opcode::SputBoolean => Some(Instruction::StaticOp { val: f.dst, idx: f.idx }),
        Opcode::SputByte => Some(Instruction::StaticOp { val: f.dst, idx: f.idx }),
        Opcode::SputChar => Some(Instruction::StaticOp { val: f.dst, idx: f.idx }),
        Opcode::SputShort => Some(Instruction::StaticOp { val: f.dst, idx: f.idx }),
        Opcode::ConstMethodHandle => Some(
            Instruction::ConstMethodHandle {
                dst: f.dst,
                idx: f.idx,
            },
        ),
        Opcode::ConstMethodType => Some(Instruction::ConstMethodType { dst: f.dst, idx: f.idx }),
        _ => None,
    }
}

/// The instructions of the layout 31c by role.
pub open spec fn role_31c(op: Opcode, f: F31c) -> Option<Instruction> {
    match op {
        Opcode::ConstStringJumbo => Some(Instruction::ConstStringJumbo { dst: f.va, idx: f.idx }),
        _ => None,
    }
}

/// Reads an instruction of the layout 31c by role.
fn read_31c(op: Opcode, f: F31c) -> (r: Option<Instruction>)
    ensures
        r == role_31c(op, f),
        op.kind() == FormatKind::F31c ==> r is Some,
{
    match op {
        Opcode::ConstStringJumbo => Some(Instruction::ConstStringJumbo { dst: f.va, idx: f.idx }),
        _ => None,
    }
}

/// The instructions of the layout 22c by role.
pub open spec fn role_22c(op: Opcode, f: F22c) -> Option<Instruction> {
    match op {
        Opcode::InstanceOf => Some(Instruction::InstanceOf { dst: f.va, obj: f.vb, idx: f.idx }),
        Opcode::NewArray => Some(Instruction::NewArray { dst: f.va, size: f.vb, idx: f.idx }),
        Opcode::Iget => Some(Instruction::InstanceOp { val: f.va, obj: f.vb, idx: f.idx }),
        Opcode::IgetWide => Some(Instruction::InstanceOp { val: f.va, obj: f.vb, idx: f.idx }),
        Opcode::IgetObject => Some(Instruction::InstanceOp { val: f.va, obj: f.vb, idx: f.idx }),
        Opcode::IgetBoolean => Some(Instruction::InstanceOp { val: f.va, obj: f.vb, idx: f.idx }),
        Opcode::IgetByte => Some(Instruction::InstanceOp { val: f.va, obj: f.vb, idx: f.idx }),
        Opcode::IgetChar => Some(Instruction::InstanceOp { val: f.va, obj: f.vb, idx: f.idx }),
        Opcode::IgetShort => Some(Instruction::InstanceOp { val: f.va, obj: f.vb, idx: f.idx }),
        Opcode::Iput => Some(Instruction::InstanceOp { val: f.va, obj: f.vb, idx: f.idx }),
        Opcode::IputWide => Some(Instruction::InstanceOp { val: f.va, obj: f.vb, idx: f.idx }),
        Opcode::IputObject => Some(Instruction::InstanceOp { val: f.va, obj: f.vb, idx: f.idx }),
        Opcode::IputBoolean => Some(Instruction::InstanceOp { val: f.va, obj: f.vb, idx: f.idx }),
        Opcode::IputByte => Some(Instruction::InstanceOp { val: f.va, obj: f.vb, idx: f.idx }),
        Opcode::IputChar => Some(Instruction::InstanceOp { val: f.va, obj: f.vb, idx: f.idx }),
        Opcode::IputShort => Some(Instruction::InstanceOp { val: f.va, obj: f.vb, idx: f.idx }),
        _ => None,
    }
}

/// Reads an instruction of the layout 22c by role.
fn read_22c(op: Opcode, f: F22c) -> (r: Option<Instruction>)
    ensures
        r == role_22c(op, f),
        op.kind() == FormatKind::F22c ==> r is Some,
{
    match op {
        Opcode::InstanceOf => Some(Instruction::InstanceOf { dst: f.va, obj: f.vb, idx: f.idx }),
        Opcode::NewArray => Some(Instruction::NewArray { dst: f.va, size: f.vb, idx: f.idx }),
        Opcode::Iget => Some(Instruction::InstanceOp { val: f.va, obj: f.vb, idx: f.idx }),
        Opcode::IgetWide => Some(Instruction::InstanceOp { val: f.va, obj: f.vb, idx: f.idx }),
        Opcode::IgetObject => Some(Instruction::InstanceOp { val: f.va, obj: f.vb, idx: f.idx }),
        Opcode::IgetBoolean => Some(Instruction::InstanceOp { val: f.va, obj: f.vb, idx: f.idx }),
        Opcode::IgetByte => Some(Instruction::InstanceOp { val: f.va, obj: f.vb, idx: f.idx }),
        Opcode::IgetChar => Some(Instruction::InstanceOp { val: f.va, obj: f.vb, idx: f.idx }),
        Opcode::IgetShort => Some(Instruction::InstanceOp { val: f.va, obj: f.vb, idx: f.idx }),
        Opcode::Iput => Some(Instruction::InstanceOp { val: f.va, obj: f.vb, idx: f.idx }),
        Opcode::IputWide => Some(Instruction::InstanceOp { val: f.va, obj: f.vb, idx: f.idx }),
        Opcode::IputObject => Some(Instruction::InstanceOp { val: f.va, obj: f.vb, idx: f.idx }),
        Opcode::IputBoolean => Some(Instruction::InstanceOp { val: f.va, obj: f.vb, idx: f.idx }),
        Opcode::IputByte => Some(Instruction::InstanceOp { val: f.va, obj: f.vb, idx: f.idx }),
        Opcode::IputChar => Some(Instruction::InstanceOp { val: f.va, obj: f.vb, idx: f.idx }),
        Opcode::IputShort => Some(Instruction::InstanceOp { val: f.va, obj: f.vb, idx: f.idx }),
        _ => None,
    }
}

/// The instructions of the layout 35c by role.
pub open spec fn role_35c(op: Opcode, f: F35c) -> Option<Instruction> {
    match op {
        Opcode::FilledNewArray => Some(
            Instruction::FilledNewArray {
                size: f.argc,
                idx: f.idx,
                c: f.args[0],
                d: f.args[1],
                e: f.args[2],
                f: f.args[3],
                g: f.args[4],
            },
        ),
        Opcode::InvokeVirtual => Some(
            Instruction::Invoke {
                kind: InvokeKind::Virtual,
                argc: f.argc,
                idx: f.idx,
                c: f.args[0],
                d: f.args[1],
                e: f.args[2],
                f: f.args[3],
                g: f.args[4],
            },
        ),
        Opcode::InvokeSuper => Some(
            Instruction::Invoke {
                kind: InvokeKind::Super,
                argc: f.argc,
                idx: f.idx,
                c: f.args[0],
                d: f.args[1],
                e: f.args[2],
                f: f.args[3],
                g: f.args[4],
            },
        ),
        Opcode::InvokeDirect => Some(
            Instruction::Invoke {
                kind: InvokeKind::Direct,
                argc: f.argc,
                idx: f.idx,
                c: f.args[0],
                d: f.args[1],
                e: f.args[2],
                f: f.args[3],
                g: f.args[4],
            },
        ),
        Opcode::InvokeStatic => Some(
            Instruction::Invoke {
                kind: InvokeKind::Static,
                argc: f.argc,
                idx: f.idx,
                c: f.args[0],
                d: f.args[1],
                e: f.args[2],
                f: f.args[3],
                g: f.args[4],
            },
        ),
        Opcode::InvokeInterface => Some(
            Instruction::Invoke {
                kind: InvokeKind::Interface,
                argc: f.argc,
                idx: f.idx,
                c: f.args[0],
                d: f.args[1],
                e: f.args[2],
                f: f.args[3],
                g: f.args[4],
            },
        ),
        Opcode::InvokeCustom => Some(
            Instruction::InvokeCustom {
                argc: f.argc,
                idx: f.idx,
                c: f.args[0],
                d: f.args[1],
                e: f.args[2],
                f: f.args[3],
                g: f.args[4],
            },
        ),
        _ => None,
    }
}

/// Reads an instruction of the layout 35c by role.
fn read_35c(op: Opcode, f: F35c) -> (r: Option<Instruction>)
    ensures
        r == role_35c(op, f),
        op.kind() == FormatKind::F35c ==> r is Some,
{
    match op {
        Opcode::FilledNewArray => Some(
            Instruction::FilledNewArray {
                size: f.argc,
                idx: f.idx,
                c: f.args[0],
                d: f.args[1],
                e: f.args[2],
                f: f.args[3],
                g: f.args[4],
            },
        ),
        Opcode::InvokeVirtual => Some(
            Instruction::Invoke {
                kind: InvokeKind::Virtual,
                argc: f.argc,
                idx: f.idx,
                c: f.args[0],
                d: f.args[1],
                e: f.args[2],
                f: f.args[3],
                g: f.args[4],
            },
        ),
        Opcode::InvokeSuper => Some(
            Instruction::Invoke {
                kind: InvokeKind::Super,
                argc: f.argc,
                idx: f.idx,
                c: f.args[0],
                d: f.args[1],
                e: f.args[2],
                f: f.args[3],
                g: f.args[4],
            },
        ),
        Opcode::InvokeDirect => Some(
            Instruction::Invoke {
                kind: InvokeKind::Direct,
                argc: f.argc,
                idx: f.idx,
                c: f.args[0],
                d: f.args[1],
                e: f.args[2],
                f: f.args[3],
                g: f.args[4],
            },
        ),
        Opcode::InvokeStatic => Some(
            Instruction::Invoke {
                kind: InvokeKind::Static,
                argc: f.argc,
                idx: f.idx,
                c: f.args[0],
                d: f.args[1],
                e: f.args[2],
                f: f.args[3],
                g: f.args[4],
            },
        ),
        Opcode::InvokeInterface => Some(
            Instruction::Invoke {
                kind: InvokeKind::Interface,
                argc: f.argc,
                idx: f.idx,
                c: f.args[0],
                d: f.args[1],
                e: f.args[2],
                f: f.args[3],
                g: f.args[4],
            },
        ),
        Opcode::InvokeCustom => Some(
            Instruction::InvokeCustom {
                argc: f.argc,
                idx: f.idx,
                c: f.args[0],
                d: f.args[1],
                e: f.args[2],
                f: f.args[3],
                g: f.args[4],
            },
        ),
        _ => None,
    }
}

/// The instructions of the layout 3rc by role.
pub open spec fn role_3rc(op: Opcode, f: F3rc) -> Option<Instruction> {
    match op {
        Opcode::FilledNewArrayRange => Some(
            Instruction::FilledNewArrayRange {
                size: f.argc,
                idx: f.idx,
                first: f.reg,
            },
        ),
        Opcode::InvokeVirtualRange => Some(
            Instruction::InvokeRange {
                kind: InvokeKind::Virtual,
                argc: f.argc,
                idx: f.idx,
                first: f.reg,
            },
        ),
        Opcode::InvokeSuperRange => Some(
            Instruction::InvokeRange {
                kind: InvokeKind::Super,
                argc: f.argc,
                idx: f.idx,
                first: f.reg,
            },
        ),
        Opcode::InvokeDirectRange => Some(
            Instruction::InvokeRange {
                kind: InvokeKind::Direct,
                argc: f.argc,
                idx: f.idx,
                first: f.reg,
            },
        ),
        Opcode::InvokeStaticRange => Some(
            Instruction::InvokeRange {
                kind: InvokeKind::Static,
                argc: f.argc,
                idx: f.idx,
                first: f.reg,
            },
        ),
        Opcode::InvokeInterfaceRange => Some(
            Instruction::InvokeRange {
                kind: InvokeKind::Interface,
                argc: f.argc,
                idx: f.idx,
                first: f.reg,
            },
        ),
        Opcode::InvokeCustomRange => Some(
            Instruction::InvokeCustomRange {
                argc: f.argc,
                idx: f.idx,
                first: f.reg,
            },
        ),
        _ => None,
    }
}

/// Reads an instruction of the layout 3rc by role.
fn read_3rc(op: Opcode, f: F3rc) -> (r: Option<Instruction>)
    ensures
        r == role_3rc(op, f),
        op.kind() == FormatKind::F3rc ==> r is Some,
{
    match op {
        Opcode::FilledNewArrayRange => Some(
            Instruction::FilledNewArrayRange {
                size: f.argc,
                idx: f.idx,
                first: f.reg,
            },
        ),
        Opcode::InvokeVirtualRange => Some(
            Instruction::InvokeRange {
                kind: InvokeKind::Virtual,
                argc: f.argc,
                idx: f.idx,
                first: f.reg,
            },
        ),
        Opcode::InvokeSuperRange => Some(
            Instruction::InvokeRange {
                kind: InvokeKind::Super,
                argc: f.argc,
                idx: f.idx,
                first: f.reg,
            },
        ),
        Opcode::InvokeDirectRange => Some(
            Instruction::InvokeRange {
                kind: InvokeKind::Direct,
                argc: f.argc,
                idx: f.idx,
                first: f.reg,
            },
        ),
        Opcode::InvokeStaticRange => Some(
            Instruction::InvokeRange {
                kind: InvokeKind::Static,
                argc: f.argc,
                idx: f.idx,
                first: f.reg,
            },
        ),
        Opcode::InvokeInterfaceRange => Some(
            Instruction::InvokeRange {
                kind: InvokeKind::Interface,
                argc: f.argc,
                idx: f.idx,
                first: f.reg,
            },
        ),
        Opcode::InvokeCustomRange => Some(
            Instruction::InvokeCustomRange {
                argc: f.argc,
                idx: f.idx,
                first: f.reg,
            },
        ),
        _ => None,
    }
}

/// The instructions of the layout 31t by role.
pub open spec fn role_31t(op: Opcode, f: F31t) -> Option<Instruction> {
    match op {
        Opcode::FillArrayData => Some(
            Instruction::FillArrayData {
                arr: f.va,
                off: unsigned32(f.offset),
            },
        ),
        Opcode::PackedSwitch => Some(Instruction::PackedSwitch { reg: f.va, off: f.offset }),
        Opcode::SparseSwitch => Some(Instruction::SparseSwitch { reg: f.va, off: f.offset }),
        _ => None,
    }
}

/// Reads an instruction of the layout 31t by role.
fn read_31t(op: Opcode, f: F31t) -> (r: Option<Instruction>)
    ensures
        r == role_31t(op, f),
        op.kind() == FormatKind::F31t ==> r is Some,
{
    match op {
        Opcode::FillArrayData => Some(
            Instruction::FillArrayData {
                arr: f.va,
                off: to_unsigned32(f.offset),
            },
        ),
        Opcode::PackedSwitch => Some(Instruction::PackedSwitch { reg: f.va, off: f.offset }),
        Opcode::SparseSwitch => Some(Instruction::SparseSwitch { reg: f.va, off: f.offset }),
        _ => None,
    }
}

/// The instructions of the layout 10t by role.
pub open spec fn role_10t(op: Opcode, f: F10t) -> Option<Instruction> {
    match op {
        Opcode::Goto => Some(Instruction::Goto { off: unsigned8(f.offset) }),
        _ => None,
    }
}

/// Reads an instruction of the layout 10t by role.
fn read_10t(op: Opcode, f: F10t) -> (r: Option<Instruction>)
    ensures
        r == role_10t(op, f),
        op.kind() == FormatKind::F10t ==> r is Some,
{
    match op {
        Opcode::Goto => Some(Instruction::Goto { off: to_unsigned8(f.offset) }),
        _ => None,
    }
}

/// The instructions of the layout 20t by role.
pub open spec fn role_20t(op: Opcode, f: F20t) -> Option<Instruction> {
    match op {
        Opcode::Goto16 => Some(Instruction::Goto16 { off: f.offset }),
        _ => None,
    }
}

/// Reads an instruction of the layout 20t by role.
fn read_20t(op: Opcode, f: F20t) -> (r: Option<Instruction>)
    ensures
        r == role_20t(op, f),
        op.kind() == FormatKind::F20t ==> r is Some,
{
    match op {
        Opcode::Goto16 => Some(Instruction::Goto16 { off: f.offset }),
        _ => None,
    }
}

/// The instructions of the layout 30t by role.
pub open spec fn role_30t(op: Opcode, f: F30t) -> Option<Instruction> {
    match op {
        Opcode::Goto32 => Some(Instruction::Goto32 { off: f.offset }),
        _ => None,
    }
}

/// Reads an instruction of the layout 30t by role.
fn read_30t(op: Opcode, f: F30t) -> (r: Option<Instruction>)
    ensures
        r == role_30t(op, f),
        op.kind() == FormatKind::F30t ==> r is Some,
{
    match op {
        Opcode::Goto32 => Some(Instruction::Goto32 { off: f.offset }),
        _ => None,
    }
}

/// The instructions of the layout 23x by role.
pub open spec fn role_23x(op: Opcode, f: F23x) -> Option<Instruction> {
    match op {
        Opcode::CmplFloat => Some(
            Instruction::CmpKind {
                kind: CmpKind::LtFloat,
                dst: f.va,
                src0: f.vb,
                src1: f.vc,
            },
        ),
        Opcode::CmpgFloat => Some(
            Instruction::CmpKind {
                kind: CmpKind::GtFloat,
                dst: f.va,
                src0: f.vb,
                src1: f.vc,
            },
        ),
        Opcode::CmplDouble => Some(
            Instruction::CmpKind {
                kind: CmpKind::LtDouble,
                dst: f.va,
                src0: f.vb,
                src1: f.vc,
            },
        ),
        Opcode::CmpgDouble => Some(
            Instruction::CmpKind {
                kind: CmpKind::GtDouble,
                dst: f.va,
                src0: f.vb,
                src1: f.vc,
            },
        ),
        Opcode::CmpLong => Some(
            Instruction::CmpKind {
                kind: CmpKind::Long,
                dst: f.va,
                src0: f.vb,
                src1: f.vc,
            },
        ),
        Opcode::Aget => Some(
            Instruction::ArrayOp {
                kind: Op::Get,
                kind_type: OpType::Single,
                val: f.va,
                arr: f.vb,
                idx: f.vc,
            },
        ),
        Opcode::AgetWide => Some(
            Instruction::ArrayOp {
                kind: Op::Get,
                kind_type: OpType::Wide,
                val: f.va,
                arr: f.vb,
                idx: f.vc,
            },
        ),
        Opcode::AgetObject => Some(
            Instruction::ArrayOp {
                kind: Op::Get,
                kind_type: OpType::Object,
                val: f.va,
                arr: f.vb,
                idx: f.vc,
            },
        ),
        Opcode::AgetBoolean => Some(
            Instruction::ArrayOp {
                kind: Op::Get,
                kind_type: OpType::Boolean,
                val: f.va,
                arr: f.vb,
                idx: f.vc,
            },
        ),
        Opcode::AgetByte => Some(
            Instruction::ArrayOp {
                kind: Op::Get,
                kind_type: OpType::Byte,
                val: f.va,
                arr: f.vb,
                idx: f.vc,
            },
        ),
        Opcode::AgetChar => Some(
            Instruction::ArrayOp {
                kind: Op::Get,
                kind_type: OpType::Char,
                val: f.va,
                arr: f.vb,
                idx: f.vc,
            },
        ),
        Opcode::AgetShort => Some(
            Instruction::ArrayOp {
                kind: Op::Get,
                kind_type: OpType::Short,
                val: f.va,
                arr: f.vb,
                idx: f.vc,
            },
        ),
        Opcode::Aput => Some(
            Instruction::ArrayOp {
                kind: Op::Put,
                kind_type: OpType::Single,
                val: f.va,
                arr: f.vb,
                idx: f.vc,
            },
        ),
        Opcode::AputWide => Some(
            Instruction::ArrayOp {
                kind: Op::Put,
                kind_type: OpType::Wide,
                val: f.va,
                arr: f.vb,
                idx: f.vc,
            },
        ),
        Opcode::AputObject => Some(
            Instruction::ArrayOp {
                kind: Op::Put,
                kind_type: OpType::Object,
                val: f.va,
                arr: f.vb,
                idx: f.vc,
            },
        ),
        Opcode::AputBoolean => Some(
            Instruction::ArrayOp {
                kind: Op::Put,
                kind_type: OpType::Boolean,
                val: f.va,
                arr: f.vb,
                idx: f.vc,
            },
        ),
        Opcode::AputByte => Some(
            Instruction::ArrayOp {
                kind: Op::Put,
                kind_type: OpType::Byte,
                val: f.va,
                arr: f.vb,
                idx: f.vc,
            },
        ),
        Opcode::AputChar => Some(
            Instruction::ArrayOp {
                kind: Op::Put,
                kind_type: OpType::Char,
                val: f.va,
                arr: f.vb,
                idx: f.vc,
            },
        ),
        Opcode::AputShort => Some(
            Instruction::ArrayOp {
                kind: Op::Put,
                kind_type: OpType::Short,
                val: f.va,
                arr: f.vb,
                idx: f.vc,
            },
        ),
        Opcode::AddInt => Some(
            Instruction::Binop {
                kind: BinopKind::AddInt,
                dst: f.va,
                src0: f.vb,
                src1: f.vc,
            },
        ),
        Opcode::SubInt => Some(
            Instruction::Binop {
                kind: BinopKind::SubInt,
                dst: f.va,
                src0: f.vb,
                src1: f.vc,
            },
        ),
        Opcode::MulInt => Some(
            Instruction::Binop {
                kind: BinopKind::MulInt,
                dst: f.va,
                src0: f.vb,
                src1: f.vc,
            },
        ),
        Opcode::DivInt => Some(
            Instruction::Binop {
                kind: BinopKind::DivInt,
                dst: f.va,
                src0: f.vb,
                src1: f.vc,
            },
        ),
        Opcode::RemInt => Some(
            Instruction::Binop {
                kind: BinopKind::RemInt,
                dst: f.va,
                src0: f.vb,
                src1: f.vc,
            },
        ),
        Opcode::AndInt => Some(
            Instruction::Binop {
                kind: BinopKind::AndInt,
                dst: f.va,
                src0: f.vb,
                src1: f.vc,
            },
        ),
        Opcode::OrInt => Some(
            Instruction::Binop {
                kind: BinopKind::OrInt,
                dst: f.va,
                src0: f.vb,
                src1: f.vc,
            },
        ),
        Opcode::XorInt => Some(
            Instruction::Binop {
                kind: BinopKind::XorInt,
                dst: f.va,
                src0: f.vb,
                src1: f.vc,
            },
        ),
        Opcode::ShlInt => Some(
            Instruction::Binop {
                kind: BinopKind::ShlInt,
                dst: f.va,
                src0: f.vb,
                src1: f.vc,
            },
        ),
        Opcode::ShrInt => Some(
            Instruction::Binop {
                kind: BinopKind::ShrInt,
                dst: f.va,
                src0: f.vb,
                src1: f.vc,
            },
        ),
        Opcode::UshrInt => Some(
            Instruction::Binop {
                kind: BinopKind::UshrInt,
                dst: f.va,
                src0: f.vb,
                src1: f.vc,
            },
        ),
        Opcode::AddLong => Some(
            Instruction::Binop {
                kind: BinopKind::AddLong,
                dst: f.va,
                src0: f.vb,
                src1: f.vc,
            },
        ),
        Opcode::SubLong => Some(
            Instruction::Binop {
                kind: BinopKind::SubLong,
                dst: f.va,
                src0: f.vb,
                src1: f.vc,
            },
        ),
        Opcode::MulLong => Some(
            Instruction::Binop {
                kind: BinopKind::MulLong,
                dst: f.va,
                src0: f.vb,
                src1: f.vc,
            },
        ),
        Opcode::DivLong => Some(
            Instruction::Binop {
                kind: BinopKind::DivLong,
                dst: f.va,
                src0: f.vb,
                src1: f.vc,
            },
        ),
        Opcode::RemLong => Some(
            Instruction::Binop {
                kind: BinopKind::RemLong,
                dst: f.va,
                src0: f.vb,
                src1: f.vc,
            },
        ),
        Opcode::AndLong => Some(
            Instruction::Binop {
                kind: BinopKind::AndLong,
                dst: f.va,
                src0: f.vb,
                src1: f.vc,
            },
        ),
        Opcode::OrLong => Some(
            Instruction::Binop {
                kind: BinopKind::OrLong,
                dst: f.va,
                src0: f.vb,
                src1: f.vc,
            },
        ),
        Opcode::XorLong => Some(
            Instruction::Binop {
                kind: BinopKind::XorLong,
                dst: f.va,
                src0: f.vb,
                src1: f.vc,
            },
        ),
        Opcode::ShlLong => Some(
            Instruction::Binop {
                kind: BinopKind::ShlLong,
                dst: f.va,
                src0: f.vb,
                src1: f.vc,
            },
        ),
        Opcode::ShrLong => Some(
            Instruction::Binop {
                kind: BinopKind::ShrLong,
                dst: f.va,
                src0: f.vb,
                src1: f.vc,
            },
        ),
        Opcode::UshrLong => Some(
            Instruction::Binop {
                kind: BinopKind::UshrLong,
                dst: f.va,
                src0: f.vb,
                src1: f.vc,
            },
        ),
        Opcode::AddFloat => Some(
            Instruction::Binop {
                kind: BinopKind::AddFloat,
                dst: f.va,
                src0: f.vb,
                src1: f.vc,
            },
        ),
        Opcode::SubFloat => Some(
            Instruction::Binop {
                kind: BinopKind::SubFloat,
                dst: f.va,
                src0: f.vb,
                src1: f.vc,
            },
        ),
        Opcode::MulFloat => Some(
            Instruction::Binop {
                kind: BinopKind::MulFloat,
                dst: f.va,
                src0: f.vb,
                src1: f.vc,
            },
        ),
        Opcode::DivFloat => Some(
            Instruction::Binop {
                kind: BinopKind::DivFloat,
                dst: f.va,
                src0: f.vb,
                src1: f.vc,
            },
        ),
        Opcode::RemFloat => Some(
            Instruction::Binop {
                kind: BinopKind::RemFloat,
                dst: f.va,
                src0: f.vb,
                src1: f.vc,
            },
        ),
        Opcode::AddDouble => Some(
            Instruction::Binop {
                kind: BinopKind::AddDouble,
                dst: f.va,
                src0: f.vb,
                src1: f.vc,
            },
        ),
        Opcode::SubDouble => Some(
            Instruction::Binop {
                kind: BinopKind::SubDouble,
                dst: f.va,
                src0: f.vb,
                src1: f.vc,
            },
        ),
        Opcode::MulDouble => Some(
            Instruction::Binop {
                kind: BinopKind::MulDouble,
                dst: f.va,
                src0: f.vb,
                src1: f.vc,
            },
        ),
        Opcode::DivDouble => Some(
            Instruction::Binop {
                kind: BinopKind::DivDouble,
                dst: f.va,
                src0: f.vb,
                src1: f.vc,
            },
        ),
        Opcode::RemDouble => Some(
            Instruction::Binop {
                kind: BinopKind::RemDouble,
                dst: f.va,
                src0: f.vb,
                src1: f.vc,
            },
        ),
        _ => None,
    }
}

/// Reads an instruction of the layout 23x by role.
fn read_23x(op: Opcode, f: F23x) -> (r: Option<Instruction>)
    ensures
        r == role_23x(op, f),
        op.kind() == FormatKind::F23x ==> r is Some,
{
    match op {
        Opcode::CmplFloat => Some(
            Instruction::CmpKind {
                kind: CmpKind::LtFloat,
                dst: f.va,
                src0: f.vb,
                src1: f.vc,
            },
        ),
        Opcode::CmpgFloat => Some(
            Instruction::CmpKind {
                kind: CmpKind::GtFloat,
                dst: f.va,
                src0: f.vb,
                src1: f.vc,
            },
        ),
        Opcode::CmplDouble => Some(
            Instruction::CmpKind {
                kind: CmpKind::LtDouble,
                dst: f.va,
                src0: f.vb,
                src1: f.vc,
            },
        ),
        Opcode::CmpgDouble => Some(
            Instruction::CmpKind {
                kind: CmpKind::GtDouble,
                dst: f.va,
                src0: f.vb,
                src1: f.vc,
            },
        ),
        Opcode::CmpLong => Some(
            Instruction::CmpKind {
                kind: CmpKind::Long,
                dst: f.va,
                src0: f.vb,
                src1: f.vc,
            },
        ),
        Opcode::Aget => Some(
            Instruction::ArrayOp {
                kind: Op::Get,
                kind_type: OpType::Single,
                val: f.va,
                arr: f.vb,
                idx: f.vc,
            },
        ),
        Opcode::AgetWide => Some(
            Instruction::ArrayOp {
                kind: Op::Get,
                kind_type: OpType::Wide,
                val: f.va,
                arr: f.vb,
                idx: f.vc,
            },
        ),
        Opcode::AgetObject => Some(
            Instruction::ArrayOp {
                kind: Op::Get,
                kind_type: OpType::Object,
                val: f.va,
                arr: f.vb,
                idx: f.vc,
            },
        ),
        Opcode::AgetBoolean => Some(
            Instruction::ArrayOp {
                kind: Op::Get,
                kind_type: OpType::Boolean,
                val: f.va,
                arr: f.vb,
                idx: f.vc,
            },
        ),
        Opcode::AgetByte => Some(
            Instruction::ArrayOp {
                kind: Op::Get,
                kind_type: OpType::Byte,
                val: f.va,
                arr: f.vb,
                idx: f.vc,
            },
        ),
        Opcode::AgetChar => Some(
            Instruction::ArrayOp {
                kind: Op::Get,
                kind_type: OpType::Char,
                val: f.va,
                arr: f.vb,
                idx: f.vc,
            },
        ),
        Opcode::AgetShort => Some(
            Instruction::ArrayOp {
                kind: Op::Get,
                kind_type: OpType::Short,
                val: f.va,
                arr: f.vb,
                idx: f.vc,
            },
        ),
        Opcode::Aput => Some(
            Instruction::ArrayOp {
                kind: Op::Put,
                kind_type: OpType::Single,
                val: f.va,
                arr: f.vb,
                idx: f.vc,
            },
        ),
        Opcode::AputWide => Some(
            Instruction::ArrayOp {
                kind: Op::Put,
                kind_type: OpType::Wide,
                val: f.va,
                arr: f.vb,
                idx: f.vc,
            },
        ),
        Opcode::AputObject => Some(
            Instruction::ArrayOp {
                kind: Op::Put,
                kind_type: OpType::Object,
                val: f.va,
                arr: f.vb,
                idx: f.vc,
            },
        ),
        Opcode::AputBoolean => Some(
            Instruction::ArrayOp {
                kind: Op::Put,
                kind_type: OpType::Boolean,
                val: f.va,
                arr: f.vb,
                idx: f.vc,
            },
        ),
        Opcode::AputByte => Some(
            Instruction::ArrayOp {
                kind: Op::Put,
                kind_type: OpType::Byte,
                val: f.va,
                arr: f.vb,
                idx: f.vc,
            },
        ),
        Opcode::AputChar => Some(
            Instruction::ArrayOp {
                kind: Op::Put,
                kind_type: OpType::Char,
                val: f.va,
                arr: f.vb,
                idx: f.vc,
            },
        ),
        Opcode::AputShort => Some(
            Instruction::ArrayOp {
                kind: Op::Put,
                kind_type: OpType::Short,
                val: f.va,
                arr: f.vb,
                idx: f.vc,
            },
        ),
        Opcode::AddInt => Some(
            Instruction::Binop {
                kind: BinopKind::AddInt,
                dst: f.va,
                src0: f.vb,
                src1: f.vc,
            },
        ),
        Opcode::SubInt => Some(
            Instruction::Binop {
                kind: BinopKind::SubInt,
                dst: f.va,
                src0: f.vb,
                src1: f.vc,
            },
        ),
        Opcode::MulInt => Some(
            Instruction::Binop {
                kind: BinopKind::MulInt,
                dst: f.va,
                src0: f.vb,
                src1: f.vc,
            },
        ),
        Opcode::DivInt => Some(
            Instruction::Binop {
                kind: BinopKind::DivInt,
                dst: f.va,
                src0: f.vb,
                src1: f.vc,
            },
        ),
        Opcode::RemInt => Some(
            Instruction::Binop {
                kind: BinopKind::RemInt,
                dst: f.va,
                src0: f.vb,
                src1: f.vc,
            },
        ),
        Opcode::AndInt => Some(
            Instruction::Binop {
                kind: BinopKind::AndInt,
                dst: f.va,
                src0: f.vb,
                src1: f.vc,
            },
        ),
        Opcode::OrInt => Some(
            Instruction::Binop {
                kind: BinopKind::OrInt,
                dst: f.va,
                src0: f.vb,
                src1: f.vc,
            },
        ),
        Opcode::XorInt => Some(
            Instruction::Binop {
                kind: BinopKind::XorInt,
                dst: f.va,
                src0: f.vb,
                src1: f.vc,
            },
        ),
        Opcode::ShlInt => Some(
            Instruction::Binop {
                kind: BinopKind::ShlInt,
                dst: f.va,
                src0: f.vb,
                src1: f.vc,
            },
        ),
        Opcode::ShrInt => Some(
            Instruction::Binop {
                kind: BinopKind::ShrInt,
                dst: f.va,
                src0: f.vb,
                src1: f.vc,
            },
        ),
        Opcode::UshrInt => Some(
            Instruction::Binop {
                kind: BinopKind::UshrInt,
                dst: f.va,
                src0: f.vb,
                src1: f.vc,
            },
        ),
        Opcode::AddLong => Some(
            Instruction::Binop {
                kind: BinopKind::AddLong,
                dst: f.va,
                src0: f.vb,
                src1: f.vc,
            },
        ),
        Opcode::SubLong => Some(
            Instruction::Binop {
                kind: BinopKind::SubLong,
                dst: f.va,
                src0: f.vb,
                src1: f.vc,
            },
        ),
        Opcode::MulLong => Some(
            Instruction::Binop {
                kind: BinopKind::MulLong,
                dst: f.va,
                src0: f.vb,
                src1: f.vc,
            },
        ),
        Opcode::DivLong => Some(
            Instruction::Binop {
                kind: BinopKind::DivLong,
                dst: f.va,
                src0: f.vb,
                src1: f.vc,
            },
        ),
        Opcode::RemLong => Some(
            Instruction::Binop {
                kind: BinopKind::RemLong,
                dst: f.va,
                src0: f.vb,
                src1: f.vc,
            },
        ),
        Opcode::AndLong => Some(
            Instruction::Binop {
                kind: BinopKind::AndLong,
                dst: f.va,
                src0: f.vb,
                src1: f.vc,
            },
        ),
        Opcode::OrLong => Some(
            Instruction::Binop {
                kind: BinopKind::OrLong,
                dst: f.va,
                src0: f.vb,
                src1: f.vc,
            },
        ),
        Opcode::XorLong => Some(
            Instruction::Binop {
                kind: BinopKind::XorLong,
                dst: f.va,
                src0: f.vb,
                src1: f.vc,
            },
        ),
        Opcode::ShlLong => Some(
            Instruction::Binop {
                kind: BinopKind::ShlLong,
                dst: f.va,
                src0: f.vb,
                src1: f.vc,
            },
        ),
        Opcode::ShrLong => Some(
            Instruction::Binop {
                kind: BinopKind::ShrLong,
                dst: f.va,
                src0: f.vb,
                src1: f.vc,
            },
        ),
        Opcode::UshrLong => Some(
            Instruction::Binop {
                kind: BinopKind::UshrLong,
                dst: f.va,
                src0: f.vb,
                src1: f.vc,
            },
        ),
        Opcode::AddFloat => Some(
            Instruction::Binop {
                kind: BinopKind::AddFloat,
                dst: f.va,
                src0: f.vb,
                src1: f.vc,
            },
        ),
        Opcode::SubFloat => Some(
            Instruction::Binop {
                kind: BinopKind::SubFloat,
                dst: f.va,
                src0: f.vb,
                src1: f.vc,
            },
        ),
        Opcode::MulFloat => Some(
            Instruction::Binop {
                kind: BinopKind::MulFloat,
                dst: f.va,
                src0: f.vb,
                src1: f.vc,
            },
        ),
        Opcode::DivFloat => Some(
            Instruction::Binop {
                kind: BinopKind::DivFloat,
                dst: f.va,
                src0: f.vb,
                src1: f.vc,
            },
        ),
        Opcode::RemFloat => Some(
            Instruction::Binop {
                kind: BinopKind::RemFloat,
                dst: f.va,
                src0: f.vb,
                src1: f.vc,
            },
        ),
        Opcode::AddDouble => Some(
            Instruction::Binop {
                kind: BinopKind::AddDouble,
                dst: f.va,
                src0: f.vb,
                src1: f.vc,
            },
        ),
        Opcode::SubDouble => Some(
            Instruction::Binop {
                kind: BinopKind::SubDouble,
                dst: f.va,
                src0: f.vb,
                src1: f.vc,
            },
        ),
        Opcode::MulDouble => Some(
            Instruction::Binop {
                kind: BinopKind::MulDouble,
                dst: f.va,
                src0: f.vb,
                src1: f.vc,
            },
        ),
        Opcode::DivDouble => Some(
            Instruction::Binop {
                kind: BinopKind::DivDouble,
                dst: f.va,
                src0: f.vb,
                src1: f.vc,
            },
        ),
        Opcode::RemDouble => Some(
            Instruction::Binop {
                kind: BinopKind::RemDouble,
                dst: f.va,
                src0: f.vb,
                src1: f.vc,
            },
        ),
        _ => None,
    }
}

/// The instructions of the layout 22t by role.
pub open spec fn role_22t(op: Opcode, f: F22t) -> Option<Instruction> {
    match op {
        Opcode::IfEq => Some(
            Instruction::IfTest {
                kind: IfTest::Eq,
                a: f.va,
                b: f.vb,
                off: f.offset,
            },
        ),
        Opcode::IfNe => Some(
            Instruction::IfTest {
                kind: IfTest::Ne,
                a: f.va,
                b: f.vb,
                off: f.offset,
            },
        ),
        Opcode::IfLt => Some(
            Instruction::IfTest {
                kind: IfTest::Lt,
                a: f.va,
                b: f.vb,
                off: f.offset,
            },
        ),
        Opcode::IfGe => Some(
            Instruction::IfTest {
                kind: IfTest::Ge,
                a: f.va,
                b: f.vb,
                off: f.offset,
            },
        ),
        Opcode::IfGt => Some(
            Instruction::IfTest {
                kind: IfTest::Gt,
                a: f.va,
                b: f.vb,
                off: f.offset,
            },
        ),
        Opcode::IfLe => Some(
            Instruction::IfTest {
                kind: IfTest::Le,
                a: f.va,
                b: f.vb,
                off: f.offset,
            },
        ),
        _ => None,
    }
}

/// Reads an instruction of the layout 22t by role.
fn read_22t(op: Opcode, f: F22t) -> (r: Option<Instruction>)
    ensures
        r == role_22t(op, f),
        op.kind() == FormatKind::F22t ==> r is Some,
{
    match op {
        Opcode::IfEq => Some(
            Instruction::IfTest {
                kind: IfTest::Eq,
                a: f.va,
                b: f.vb,
                off: f.offset,
            },
        ),
        Opcode::IfNe => Some(
            Instruction::IfTest {
                kind: IfTest::Ne,
                a: f.va,
                b: f.vb,
                off: f.offset,
            },
        ),
        Opcode::IfLt => Some(
            Instruction::IfTest {
                kind: IfTest::Lt,
                a: f.va,
                b: f.vb,
                off: f.offset,
            },
        ),
        Opcode::IfGe => Some(
            Instruction::IfTest {
                kind: IfTest::Ge,
                a: f.va,
                b: f.vb,
                off: f.offset,
            },
        ),
        Opcode::IfGt => Some(
            Instruction::IfTest {
                kind: IfTest::Gt,
                a: f.va,
                b: f.vb,
                off: f.offset,
            },
        ),
        Opcode::IfLe => Some(
            Instruction::IfTest {
                kind: IfTest::Le,
                a: f.va,
                b: f.vb,
                off: f.offset,
            },
        ),
        _ => None,
    }
}

/// The instructions of the layout 21t by role.
pub open spec fn role_21t(op: Opcode, f: F21t) -> Option<Instruction> {
    match op {
        Opcode::IfEqz => Some(Instruction::IfTestZ { kind: IfTest::Eq, a: f.va, off: f.offset }),
        Opcode::IfNez => Some(Instruction::IfTestZ { kind: IfTest::Ne, a: f.va, off: f.offset }),
        Opcode::IfLtz => Some(Instruction::IfTestZ { kind: IfTest::Lt, a: f.va, off: f.offset }),
        Opcode::IfGez => Some(Instruction::IfTestZ { kind: IfTest::Ge, a: f.va, off: f.offset }),
        Opcode::IfGtz => Some(Instruction::IfTestZ { kind: IfTest::Gt, a: f.va, off: f.offset }),
        Opcode::IfLez => Some(Instruction::IfTestZ { kind: IfTest::Le, a: f.va, off: f.offset }),
        _ => None,
    }
}

/// Reads an instruction of the layout 21t by role.
fn read_21t(op: Opcode, f: F21t) -> (r: Option<Instruction>)
    ensures
        r == role_21t(op, f),
        op.kind() == FormatKind::F21t ==> r is Some,
{
    match op {
        Opcode::IfEqz => Some(Instruction::IfTestZ { kind: IfTest::Eq, a: f.va, off: f.offset }),
        Opcode::IfNez => Some(Instruction::IfTestZ { kind: IfTest::Ne, a: f.va, off: f.offset }),
        Opcode::IfLtz => Some(Instruction::IfTestZ { kind: IfTest::Lt, a: f.va, off: f.offset }),
        Opcode::IfGez => Some(Instruction::IfTestZ { kind: IfTest::Ge, a: f.va, off: f.offset }),
        Opcode::IfGtz => Some(Instruction::IfTestZ { kind: IfTest::Gt, a: f.va, off: f.offset }),
        Opcode::IfLez => Some(Instruction::IfTestZ { kind: IfTest::Le, a: f.va, off: f.offset }),
        _ => None,
    }
}

/// The instructions of the layout 22s by role.
pub open spec fn role_22s(op: Opcode, f: F22s) -> Option<Instruction> {
    match op {
        Opcode::AddIntLit16 => Some(
            Instruction::BinopLit {
                kind: BinopKind::AddInt,
                dst: f.va,
                src: f.vb,
                lit: f.literal,
            },
        ),
        Opcode::RsubInt => Some(
            Instruction::BinopLit {
                kind: BinopKind::SubInt,
                dst: f.va,
                src: f.vb,
                lit: f.literal,
            },
        ),
        Opcode::MulIntLit16 => Some(
            Instruction::BinopLit {
                kind: BinopKind::MulInt,
                dst: f.va,
                src: f.vb,
                lit: f.literal,
            },
        ),
        Opcode::DivIntLit16 => Some(
            Instruction::BinopLit {
                kind: BinopKind::DivInt,
                dst: f.va,
                src: f.vb,
                lit: f.literal,
            },
        ),
        Opcode::RemIntLit16 => Some(
            Instruction::BinopLit {
                kind: BinopKind::RemInt,
                dst: f.va,
                src: f.vb,
                lit: f.literal,
            },
        ),
        Opcode::AndIntLit16 => Some(
            Instruction::BinopLit {
                kind: BinopKind::AndInt,
                dst: f.va,
                src: f.vb,
                lit: f.literal,
            },
        ),
        Opcode::OrIntLit16 => Some(
            Instruction::BinopLit {
                kind: BinopKind::OrInt,
                dst: f.va,
                src: f.vb,
                lit: f.literal,
            },
        ),
        Opcode::XorIntLit16 => Some(
            Instruction::BinopLit {
                kind: BinopKind::XorInt,
                dst: f.va,
                src: f.vb,
                lit: f.literal,
            },
        ),
        _ => None,
    }
}

/// Reads an instruction of the layout 22s by role.
fn read_22s(op: Opcode, f: F22s) -> (r: Option<Instruction>)
    ensures
        r == role_22s(op, f),
        op.kind() == FormatKind::F22s ==> r is Some,
{
    match op {
        Opcode::AddIntLit16 => Some(
            Instruction::BinopLit {
                kind: BinopKind::AddInt,
                dst: f.va,
                src: f.vb,
                lit: f.literal,
            },
        ),
        Opcode::RsubInt => Some(
            Instruction::BinopLit {
                kind: BinopKind::SubInt,
                dst: f.va,
                src: f.vb,
                lit: f.literal,
            },
        ),
        Opcode::MulIntLit16 => Some(
            Instruction::BinopLit {
                kind: BinopKind::MulInt,
                dst: f.va,
                src: f.vb,
                lit: f.literal,
            },
        ),
        Opcode::DivIntLit16 => Some(
            Instruction::BinopLit {
                kind: BinopKind::DivInt,
                dst: f.va,
                src: f.vb,
                lit: f.literal,
            },
        ),
        Opcode::RemIntLit16 => Some(
            Instruction::BinopLit {
                kind: BinopKind::RemInt,
                dst: f.va,
                src: f.vb,
                lit: f.literal,
            },
        ),
        Opcode::AndIntLit16 => Some(
            Instruction::BinopLit {
                kind: BinopKind::AndInt,
                dst: f.va,
                src: f.vb,
                lit: f.literal,
            },
        ),
        Opcode::OrIntLit16 => Some(
            Instruction::BinopLit {
                kind: BinopKind::OrInt,
                dst: f.va,
                src: f.vb,
                lit: f.literal,
            },
        ),
        Opcode::XorIntLit16 => Some(
            Instruction::BinopLit {
                kind: BinopKind::XorInt,
                dst: f.va,
                src: f.vb,
                lit: f.literal,
            },
        ),
        _ => None,
    }
}

/// The instructions of the layout 22b by role.
pub open spec fn role_22b(op: Opcode, f: F22b) -> Option<Instruction> {
    match op {
        Opcode::AddIntLit8 => Some(
            Instruction::BinopLit {
                kind: BinopKind::AddInt,
                dst: f.va,
                src: f.vb,
                lit: widened8(f.literal),
            },
        ),
        Opcode::RsubIntLit8 => Some(
            Instruction::BinopLit {
                kind: BinopKind::SubInt,
                dst: f.va,
                src: f.vb,
                lit: widened8(f.literal),
            },
        ),
        Opcode::MulIntLit8 => Some(
            Instruction::BinopLit {
                kind: BinopKind::MulInt,
                dst: f.va,
                src: f.vb,
                lit: widened8(f.literal),
            },
        ),
        Opcode::DivIntLit8 => Some(
            Instruction::BinopLit {
                kind: BinopKind::DivInt,
                dst: f.va,
                src: f.vb,
                lit: widened8(f.literal),
            },
        ),
        Opcode::RemIntLit8 => Some(
            Instruction::BinopLit {
                kind: BinopKind::RemInt,
                dst: f.va,
                src: f.vb,
                lit: widened8(f.literal),
            },
        ),
        Opcode::AndIntLit8 => Some(
            Instruction::BinopLit {
                kind: BinopKind::AndInt,
                dst: f.va,
                src: f.vb,
                lit: widened8(f.literal),
            },
        ),
        Opcode::OrIntLit8 => Some(
            Instruction::BinopLit {
                kind: BinopKind::OrInt,
                dst: f.va,
                src: f.vb,
                lit: widened8(f.literal),
            },
        ),
        Opcode::XorIntLit8 => Some(
            Instruction::BinopLit {
                kind: BinopKind::XorInt,
                dst: f.va,
                src: f.vb,
                lit: widened8(f.literal),
            },
        ),
        Opcode::ShlIntLit8 => Some(
            Instruction::BinopLit {
                kind: BinopKind::ShlInt,
                dst: f.va,
                src: f.vb,
                lit: widened8(f.literal),
            },
        ),
        Opcode::ShrIntLit8 => Some(
            Instruction::BinopLit {
                kind: BinopKind::ShrInt,
                dst: f.va,
                src: f.vb,
                lit: widened8(f.literal),
            },
        ),
        Opcode::UshrIntLit8 => Some(
            Instruction::BinopLit {
                kind: BinopKind::UshrInt,
                dst: f.va,
                src: f.vb,
                lit: widened8(f.literal),
            },
        ),
        _ => None,
    }
}

/// Reads an instruction of the layout 22b by role.
fn read_22b(op: Opcode, f: F22b) -> (r: Option<Instruction>)
    ensures
        r == role_22b(op, f),
        op.kind() == FormatKind::F22b ==> r is Some,
{
    match op {
        Opcode::AddIntLit8 => Some(
            Instruction::BinopLit {
                kind: BinopKind::AddInt,
                dst: f.va,
                src: f.vb,
                lit: widen8(f.literal),
            },
        ),
        Opcode::RsubIntLit8 => Some(
            Instruction::BinopLit {
                kind: BinopKind::SubInt,
                dst: f.va,
                src: f.vb,
                lit: widen8(f.literal),
            },
        ),
        Opcode::MulIntLit8 => Some(
            Instruction::BinopLit {
                kind: BinopKind::MulInt,
                dst: f.va,
                src: f.vb,
                lit: widen8(f.literal),
            },
        ),
        Opcode::DivIntLit8 => Some(
            Instruction::BinopLit {
                kind: BinopKind::DivInt,
                dst: f.va,
                src: f.vb,
                lit: widen8(f.literal),
            },
        ),
        Opcode::RemIntLit8 => Some(
            Instruction::BinopLit {
                kind: BinopKind::RemInt,
                dst: f.va,
                src: f.vb,
                lit: widen8(f.literal),
            },
        ),
        Opcode::AndIntLit8 => Some(
            Instruction::BinopLit {
                kind: BinopKind::AndInt,
                dst: f.va,
                src: f.vb,
                lit: widen8(f.literal),
            },
        ),
        Opcode::OrIntLit8 => Some(
            Instruction::BinopLit {
                kind: BinopKind::OrInt,
                dst: f.va,
                src: f.vb,
                lit: widen8(f.literal),
            },
        ),
        Opcode::XorIntLit8 => Some(
            Instruction::BinopLit {
                kind: BinopKind::XorInt,
                dst: f.va,
                src: f.vb,
                lit: widen8(f.literal),
            },
        ),
        Opcode::ShlIntLit8 => Some(
            Instruction::BinopLit {
                kind: BinopKind::ShlInt,
                dst: f.va,
                src: f.vb,
                lit: widen8(f.literal),
            },
        ),
        Opcode::ShrIntLit8 => Some(
            Instruction::BinopLit {
                kind: BinopKind::ShrInt,
                dst: f.va,
                src: f.vb,
                lit: widen8(f.literal),
            },
        ),
        Opcode::UshrIntLit8 => Some(
            Instruction::BinopLit {
                kind: BinopKind::UshrInt,
                dst: f.va,
                src: f.vb,
                lit: widen8(f.literal),
            },
        ),
        _ => None,
    }
}

/// The instructions of the layout 45cc by role.
pub open spec fn role_45cc(op: Opcode, f: F45cc) -> Option<Instruction> {
    match op {
        Opcode::InvokePolymorphic => Some(
            Instruction::InvokePolymorphic {
                argc: f.argc,
                midx: f.meth,
                recv: f.vg,
                pidx: f.proto,
                d: f.args[1],
                e: f.args[2],
                f: f.args[3],
                g: f.args[4],
            },
        ),
        _ => None,
    }
}

/// Reads an instruction of the layout 45cc by role.
fn read_45cc(op: Opcode, f: F45cc) -> (r: Option<Instruction>)
    ensures
        r == role_45cc(op, f),
        op.kind() == FormatKind::F45cc ==> r is Some,
{
    match op {
        Opcode::InvokePolymorphic => Some(
            Instruction::InvokePolymorphic {
                argc: f.argc,
                midx: f.meth,
                recv: f.vg,
                pidx: f.proto,
                d: f.args[1],
                e: f.args[2],
                f: f.args[3],
                g: f.args[4],
            },
        ),
        _ => None,
    }
}

/// The instructions of the layout 4rcc by role.
pub open spec fn role_4rcc(op: Opcode, f: F4rcc) -> Option<Instruction> {
    match op {
        Opcode::InvokePolymorphicRange => Some(
            Instruction::InvokePolymorphicRange {
                argc: f.argc,
                midx: f.meth,
                recv: f.reg,
                pidx: f.proto,
            },
        ),
        _ => None,
    }
}

/// Reads an instruction of the layout 4rcc by role.
fn read_4rcc(op: Opcode, f: F4rcc) -> (r: Option<Instruction>)
    ensures
        r == role_4rcc(op, f),
        op.kind() == FormatKind::F4rcc ==> r is Some,
{
    match op {
        Opcode::InvokePolymorphicRange => Some(
            Instruction::InvokePolymorphicRange {
                argc: f.argc,
                midx: f.meth,
                recv: f.reg,
                pidx: f.proto,
            },
        ),
        _ => None,
    }
}

/// The instruction `op` with the operands `format` by role, where the
/// operands are in the layout of the opcode. The reverse subtractions
/// count as subtractions. A literal or an offset that the variant holds
/// without a sign is the same bits read as an unsigned number.
pub open spec fn by_role(op: Opcode, format: Format) -> Option<Instruction> {
    match format {
        Format::F10x => role_10x(op),
        Format::F12x(f) => role_12x(op, f),
        Format::F22x(f) => role_22x(op, f),
        Format::F32x(f) => role_32x(op, f),
        Format::F11x(f) => role_11x(op, f),
        Format::F11n(f) => role_11n(op, f),
        Format::F21s(f) => role_21s(op, f),
        Format::F31i(f) => role_31i(op, f),
        Format::F21h(f) => role_21h(op, f),
        Format::F51l(f) => role_51l(op, f),
        Format::F21c(f) => role_21c(op, f),
        Format::F31c(f) => role_31c(op, f),
        Format::F22c(f) => role_22c(op, f),
        Format::F35c(f) => role_35c(op, f),
        Format::F3rc(f) => role_3rc(op, f),
        Format::F31t(f) => role_31t(op, f),
        Format::F10t(f) => role_10t(op, f),
        Format::F20t(f) => role_20t(op, f),
        Format::F30t(f) => role_30t(op, f),
        Format::F23x(f) => role_23x(op, f),
        Format::F22t(f) => role_22t(op, f),
        Format::F21t(f) => role_21t(op, f),
        Format::F22s(f) => role_22s(op, f),
        Format::F22b(f) => role_22b(op, f),
        Format::F45cc(f) => role_45cc(op, f),
        Format::F4rcc(f) => role_4rcc(op, f),
        _ => None,
    }
}

/// What the code units from `offset` on give by role: nothing at the end
/// of the stream and nothing at a payload table, else the instruction that
/// [`decode`] finds there, or the error that it finds.
pub open spec fn decode_by_role(code: Seq<u16>, offset: usize) -> Result<
    Option<Instruction>,
    InstructionError,
> {
    match decode(code, offset) {
        Ok(Some((InstructionView::Regular { op, format }, n))) => Ok(by_role(op, format)),
        Ok(_) => Ok(None),
        Err(e) => Err(e),
    }
}

impl Instruction {
    /// The instruction `op` with the operands `format` by role; `None`
    /// where the operands are not in the layout of the opcode.
    pub fn from_regular(op: Opcode, format: &Format) -> (r: Option<Instruction>)
        ensures
            r == by_role(op, *format),
            format.kind() == op.kind() ==> r is Some,
    {
        match *format {
            Format::F10x => read_10x(op),
            Format::F12x(f) => read_12x(op, f),
            Format::F22x(f) => read_22x(op, f),
            Format::F32x(f) => read_32x(op, f),
            Format::F11x(f) => read_11x(op, f),
            Format::F11n(f) => read_11n(op, f),
            Format::F21s(f) => read_21s(op, f),
            Format::F31i(f) => read_31i(op, f),
            Format::F21h(f) => read_21h(op, f),
            Format::F51l(f) => read_51l(op, f),
            Format::F21c(f) => read_21c(op, f),
            Format::F31c(f) => read_31c(op, f),
            Format::F22c(f) => read_22c(op, f),
            Format::F35c(f) => read_35c(op, f),
            Format::F3rc(f) => read_3rc(op, f),
            Format::F31t(f) => read_31t(op, f),
            Format::F10t(f) => read_10t(op, f),
            Format::F20t(f) => read_20t(op, f),
            Format::F30t(f) => read_30t(op, f),
            Format::F23x(f) => read_23x(op, f),
            Format::F22t(f) => read_22t(op, f),
            Format::F21t(f) => read_21t(op, f),
            Format::F22s(f) => read_22s(op, f),
            Format::F22b(f) => read_22b(op, f),
            Format::F45cc(f) => read_45cc(op, f),
            Format::F4rcc(f) => read_4rcc(op, f),
            _ => None,
        }
    }

    /// Decodes the instruction that starts at `offset`. The result is
    /// `None` at the end of the stream and at a payload table.
    pub fn try_from_code(code: &[u16], offset: usize) -> (r: Result<
        Option<Instruction>,
        InstructionError,
    >)
        ensures
            r == decode_by_role(code@, offset),
    {
        match super::decode::Instruction::try_from_code(code, offset) {
            Ok(Some((super::decode::Instruction::Regular { op, format }, _))) => Ok(
                Self::from_regular(op, &format),
            ),
            Ok(_) => Ok(None),
            Err(e) => Err(e),
        }
    }
}

} // verus!
