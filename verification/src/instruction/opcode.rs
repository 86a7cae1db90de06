//! The Dalvik opcode table: every assigned opcode byte, its symbolic name and
//! the operand layout it is encoded with.

use vstd::prelude::*;

verus! {

/// The operand layout of an instruction: which bits of which code units hold
/// registers, literals, pool indices and branch offsets.
#[derive(Clone, Copy, Debug, PartialEq, Eq, Structural, Hash)]
pub enum FormatKind {
    F10x,
    F12x,
    F11n,
    F11x,
    F10t,
    F20t,
    F20bc,
    F22x,
    F21t,
    F21s,
    F21h,
    F21c,
    F23x,
    F22b,
    F22t,
    F22s,
    F22c,
    F22cs,
    F30t,
    F32x,
    F31i,
    F31t,
    F31c,
    F35c,
    F35ms,
    F35mi,
    F3rc,
    F3rms,
    F3rmi,
    F45cc,
    F4rcc,
    F51l,
}

impl FormatKind {
    /// Number of 16-bit code units an instruction of this layout occupies.
    pub open spec fn units(self) -> nat {
        match self {
            FormatKind::F10x | FormatKind::F12x | FormatKind::F11n | FormatKind::F11x
            | FormatKind::F10t => 1,
            FormatKind::F20t | FormatKind::F20bc | FormatKind::F22x | FormatKind::F21t
            | FormatKind::F21s | FormatKind::F21h | FormatKind::F21c | FormatKind::F23x
            | FormatKind::F22b | FormatKind::F22t | FormatKind::F22s | FormatKind::F22c
            | FormatKind::F22cs => 2,
            FormatKind::F30t | FormatKind::F32x | FormatKind::F31i | FormatKind::F31t
            | FormatKind::F31c | FormatKind::F35c | FormatKind::F35ms | FormatKind::F35mi
            | FormatKind::F3rc | FormatKind::F3rms | FormatKind::F3rmi => 3,
            FormatKind::F45cc | FormatKind::F4rcc => 4,
            FormatKind::F51l => 5,
        }
    }

    /// Number of 16-bit code units an instruction of this layout occupies.
    pub fn len(self) -> (n: usize)
        ensures
            n == self.units(),
            1 <= n <= 5,
    {
        match self {
            FormatKind::F10x | FormatKind::F12x | FormatKind::F11n | FormatKind::F11x
            | FormatKind::F10t => 1,
            FormatKind::F20t | FormatKind::F20bc | FormatKind::F22x | FormatKind::F21t
            | FormatKind::F21s | FormatKind::F21h | FormatKind::F21c | FormatKind::F23x
            | FormatKind::F22b | FormatKind::F22t | FormatKind::F22s | FormatKind::F22c
            | FormatKind::F22cs => 2,
            FormatKind::F30t | FormatKind::F32x | FormatKind::F31i | FormatKind::F31t
            | FormatKind::F31c | FormatKind::F35c | FormatKind::F35ms | FormatKind::F35mi
            | FormatKind::F3rc | FormatKind::F3rms | FormatKind::F3rmi => 3,
            FormatKind::F45cc | FormatKind::F4rcc => 4,
            FormatKind::F51l => 5,
        }
    }
}

/// A Dalvik opcode. The variants are the assigned values of the opcode byte;
/// the bytes left out are reserved.
#[derive(Clone, Copy, Debug, PartialEq, Eq, Structural, Hash)]
pub enum Opcode {
    Nop,
    Move,
    MoveFrom16,
    Move16,
    MoveWide,
    MoveWideFrom16,
    MoveWide16,
    MoveObject,
    MoveObjectFrom16,
    MoveObject16,
    MoveResult,
    MoveResultWide,
    MoveResultObject,
    MoveException,
    ReturnVoid,
    Return,
    ReturnWide,
    ReturnObject,
    Const4,
    Const16,
    Const,
    ConstHigh16,
    ConstWide16,
    ConstWide32,
    ConstWide,
    ConstWideHigh16,
    ConstString,
    ConstStringJumbo,
    ConstClass,
    MonitorEnter,
    MonitorExit,
    CheckCast,
    InstanceOf,
    ArrayLength,
    NewInstance,
    NewArray,
    FilledNewArray,
    FilledNewArrayRange,
    FillArrayData,
    Throw,
    Goto,
    Goto16,
    Goto32,
    PackedSwitch,
    SparseSwitch,
    CmplFloat,
    CmpgFloat,
    CmplDouble,
    CmpgDouble,
    CmpLong,
    IfEq,
    IfNe,
    IfLt,
    IfGe,
    IfGt,
    IfLe,
    IfEqz,
    IfNez,
    IfLtz,
    IfGez,
    IfGtz,
    IfLez,
    Aget,
    AgetWide,
    AgetObject,
    AgetBoolean,
    AgetByte,
    AgetChar,
    AgetShort,
    Aput,
    AputWide,
    AputObject,
    AputBoolean,
    AputByte,
    AputChar,
    AputShort,
    Iget,
    IgetWide,
    IgetObject,
    IgetBoolean,
    IgetByte,
    IgetChar,
    IgetShort,
    Iput,
    IputWide,
    IputObject,
    IputBoolean,
    IputByte,
    IputChar,
    IputShort,
    Sget,
    SgetWide,
    SgetObject,
    SgetBoolean,
    SgetByte,
    SgetChar,
    SgetShort,
    Sput,
    SputWide,
    SputObject,
    SputBoolean,
    SputByte,
    SputChar,
    SputShort,
    InvokeVirtual,
    InvokeSuper,
    InvokeDirect,
    InvokeStatic,
    InvokeInterface,
    InvokeVirtualRange,
    InvokeSuperRange,
    InvokeDirectRange,
    InvokeStaticRange,
    InvokeInterfaceRange,
    NegInt,
    NotInt,
    NegLong,
    NotLong,
    NegFloat,
    NegDouble,
    IntToLong,
    IntToFloat,
    IntToDouble,
    LongToInt,
    LongToFloat,
    LongToDouble,
    FloatToInt,
    FloatToLong,
    FloatToDouble,
    DoubleToInt,
    DoubleToLong,
    DoubleToFloat,
    IntToByte,
    IntToChar,
    IntToShort,
    AddInt,
    SubInt,
    MulInt,
    DivInt,
    RemInt,
    AndInt,
    OrInt,
    XorInt,
    ShlInt,
    ShrInt,
    UshrInt,
    AddLong,
    SubLong,
    MulLong,
    DivLong,
    RemLong,
    AndLong,
    OrLong,
    XorLong,
    ShlLong,
    ShrLong,
    UshrLong,
    AddFloat,
    SubFloat,
    MulFloat,
    DivFloat,
    RemFloat,
    AddDouble,
    SubDouble,
    MulDouble,
    DivDouble,
    RemDouble,
    AddInt2addr,
    SubInt2addr,
    MulInt2addr,
    DivInt2addr,
    RemInt2addr,
    AndInt2addr,
    OrInt2addr,
    XorInt2addr,
    ShlInt2addr,
    ShrInt2addr,
    UshrInt2addr,
    AddLong2addr,
    SubLong2addr,
    MulLong2addr,
    DivLong2addr,
    RemLong2addr,
    AndLong2addr,
    OrLong2addr,
    XorLong2addr,
    ShlLong2addr,
    ShrLong2addr,
    UshrLong2addr,
    AddFloat2addr,
    SubFloat2addr,
    MulFloat2addr,
    DivFloat2addr,
    RemFloat2addr,
    AddDouble2addr,
    SubDouble2addr,
    MulDouble2addr,
    DivDouble2addr,
    RemDouble2addr,
    AddIntLit16,
    RsubInt,
    MulIntLit16,
    DivIntLit16,
    RemIntLit16,
    AndIntLit16,
    OrIntLit16,
    XorIntLit16,
    AddIntLit8,
    RsubIntLit8,
    MulIntLit8,
    DivIntLit8,
    RemIntLit8,
    AndIntLit8,
    OrIntLit8,
    XorIntLit8,
    ShlIntLit8,
    ShrIntLit8,
    UshrIntLit8,
    InvokePolymorphic,
    InvokePolymorphicRange,
    InvokeCustom,
    InvokeCustomRange,
    ConstMethodHandle,
    ConstMethodType,
}

impl Opcode {
    /// The opcode byte of this opcode.
    pub open spec fn byte(self) -> u8 {
        match self {
            Opcode::Nop => 0x00,
            Opcode::Move => 0x01,
            Opcode::MoveFrom16 => 0x02,
            Opcode::Move16 => 0x03,
            Opcode::MoveWide => 0x04,
            Opcode::MoveWideFrom16 => 0x05,
            Opcode::MoveWide16 => 0x06,
            Opcode::MoveObject => 0x07,
            Opcode::MoveObjectFrom16 => 0x08,
            Opcode::MoveObject16 => 0x09,
            Opcode::MoveResult => 0x0A,
            Opcode::MoveResultWide => 0x0B,
            Opcode::MoveResultObject => 0x0C,
            Opcode::MoveException => 0x0D,
            Opcode::ReturnVoid => 0x0E,
            Opcode::Return => 0x0F,
            Opcode::ReturnWide => 0x10,
            Opcode::ReturnObject => 0x11,
            Opcode::Const4 => 0x12,
            Opcode::Const16 => 0x13,
            Opcode::Const => 0x14,
            Opcode::ConstHigh16 => 0x15,
            Opcode::ConstWide16 => 0x16,
            Opcode::ConstWide32 => 0x17,
            Opcode::ConstWide => 0x18,
            Opcode::ConstWideHigh16 => 0x19,
            Opcode::ConstString => 0x1A,
            Opcode::ConstStringJumbo => 0x1B,
            Opcode::ConstClass => 0x1C,
            Opcode::MonitorEnter => 0x1D,
            Opcode::MonitorExit => 0x1E,
            Opcode::CheckCast => 0x1F,
            Opcode::InstanceOf => 0x20,
            Opcode::ArrayLength => 0x21,
            Opcode::NewInstance => 0x22,
            Opcode::NewArray => 0x23,
            Opcode::FilledNewArray => 0x24,
            Opcode::FilledNewArrayRange => 0x25,
            Opcode::FillArrayData => 0x26,
            Opcode::Throw => 0x27,
            Opcode::Goto => 0x28,
            Opcode::Goto16 => 0x29,
            Opcode::Goto32 => 0x2A,
            Opcode::PackedSwitch => 0x2B,
            Opcode::SparseSwitch => 0x2C,
            Opcode::CmplFloat => 0x2D,
            Opcode::CmpgFloat => 0x2E,
            Opcode::CmplDouble => 0x2F,
            Opcode::CmpgDouble => 0x30,
            Opcode::CmpLong => 0x31,
            Opcode::IfEq => 0x32,
            Opcode::IfNe => 0x33,
            Opcode::IfLt => 0x34,
            Opcode::IfGe => 0x35,
            Opcode::IfGt => 0x36,
            Opcode::IfLe => 0x37,
            Opcode::IfEqz => 0x38,
            Opcode::IfNez => 0x39,
            Opcode::IfLtz => 0x3A,
            Opcode::IfGez => 0x3B,
            Opcode::IfGtz => 0x3C,
            Opcode::IfLez => 0x3D,
            Opcode::Aget => 0x44,
            Opcode::AgetWide => 0x45,
            Opcode::AgetObject => 0x46,
            Opcode::AgetBoolean => 0x47,
            Opcode::AgetByte => 0x48,
            Opcode::AgetChar => 0x49,
            Opcode::AgetShort => 0x4A,
            Opcode::Aput => 0x4B,
            Opcode::AputWide => 0x4C,
            Opcode::AputObject => 0x4D,
            Opcode::AputBoolean => 0x4E,
            Opcode::AputByte => 0x4F,
            Opcode::AputChar => 0x50,
            Opcode::AputShort => 0x51,
            Opcode::Iget => 0x52,
            Opcode::IgetWide => 0x53,
            Opcode::IgetObject => 0x54,
            Opcode::IgetBoolean => 0x55,
            Opcode::IgetByte => 0x56,
            Opcode::IgetChar => 0x57,
            Opcode::IgetShort => 0x58,
            Opcode::Iput => 0x59,
            Opcode::IputWide => 0x5A,
            Opcode::IputObject => 0x5B,
            Opcode::IputBoolean => 0x5C,
            Opcode::IputByte => 0x5D,
            Opcode::IputChar => 0x5E,
            Opcode::IputShort => 0x5F,
            Opcode::Sget => 0x60,
            Opcode::SgetWide => 0x61,
            Opcode::SgetObject => 0x62,
            Opcode::SgetBoolean => 0x63,
            Opcode::SgetByte => 0x64,
            Opcode::SgetChar => 0x65,
            Opcode::SgetShort => 0x66,
            Opcode::Sput => 0x67,
            Opcode::SputWide => 0x68,
            Opcode::SputObject => 0x69,
            Opcode::SputBoolean => 0x6A,
            Opcode::SputByte => 0x6B,
            Opcode::SputChar => 0x6C,
            Opcode::SputShort => 0x6D,
            Opcode::InvokeVirtual => 0x6E,
            Opcode::InvokeSuper => 0x6F,
            Opcode::InvokeDirect => 0x70,
            Opcode::InvokeStatic => 0x71,
            Opcode::InvokeInterface => 0x72,
            Opcode::InvokeVirtualRange => 0x74,
            Opcode::InvokeSuperRange => 0x75,
            Opcode::InvokeDirectRange => 0x76,
            Opcode::InvokeStaticRange => 0x77,
            Opcode::InvokeInterfaceRange => 0x78,
            Opcode::NegInt => 0x7B,
            Opcode::NotInt => 0x7C,
            Opcode::NegLong => 0x7D,
            Opcode::NotLong => 0x7E,
            Opcode::NegFloat => 0x7F,
            Opcode::NegDouble => 0x80,
            Opcode::IntToLong => 0x81,
            Opcode::IntToFloat => 0x82,
            Opcode::IntToDouble => 0x83,
            Opcode::LongToInt => 0x84,
            Opcode::LongToFloat => 0x85,
            Opcode::LongToDouble => 0x86,
            Opcode::FloatToInt => 0x87,
            Opcode::FloatToLong => 0x88,
            Opcode::FloatToDouble => 0x89,
            Opcode::DoubleToInt => 0x8A,
            Opcode::DoubleToLong => 0x8B,
            Opcode::DoubleToFloat => 0x8C,
            Opcode::IntToByte => 0x8D,
            Opcode::IntToChar => 0x8E,
            Opcode::IntToShort => 0x8F,
            Opcode::AddInt => 0x90,
            Opcode::SubInt => 0x91,
            Opcode::MulInt => 0x92,
            Opcode::DivInt => 0x93,
            Opcode::RemInt => 0x94,
            Opcode::AndInt => 0x95,
            Opcode::OrInt => 0x96,
            Opcode::XorInt => 0x97,
            Opcode::ShlInt => 0x98,
            Opcode::ShrInt => 0x99,
            Opcode::UshrInt => 0x9A,
            Opcode::AddLong => 0x9B,
            Opcode::SubLong => 0x9C,
            Opcode::MulLong => 0x9D,
            Opcode::DivLong => 0x9E,
            Opcode::RemLong => 0x9F,
            Opcode::AndLong => 0xA0,
            Opcode::OrLong => 0xA1,
            Opcode::XorLong => 0xA2,
            Opcode::ShlLong => 0xA3,
            Opcode::ShrLong => 0xA4,
            Opcode::UshrLong => 0xA5,
            Opcode::AddFloat => 0xA6,
            Opcode::SubFloat => 0xA7,
            Opcode::MulFloat => 0xA8,
            Opcode::DivFloat => 0xA9,
            Opcode::RemFloat => 0xAA,
            Opcode::AddDouble => 0xAB,
            Opcode::SubDouble => 0xAC,
            Opcode::MulDouble => 0xAD,
            Opcode::DivDouble => 0xAE,
            Opcode::RemDouble => 0xAF,
            Opcode::AddInt2addr => 0xB0,
            Opcode::SubInt2addr => 0xB1,
            Opcode::MulInt2addr => 0xB2,
            Opcode::DivInt2addr => 0xB3,
            Opcode::RemInt2addr => 0xB4,
            Opcode::AndInt2addr => 0xB5,
            Opcode::OrInt2addr => 0xB6,
            Opcode::XorInt2addr => 0xB7,
            Opcode::ShlInt2addr => 0xB8,
            Opcode::ShrInt2addr => 0xB9,
            Opcode::UshrInt2addr => 0xBA,
            Opcode::AddLong2addr => 0xBB,
            Opcode::SubLong2addr => 0xBC,
            Opcode::MulLong2addr => 0xBD,
            Opcode::DivLong2addr => 0xBE,
            Opcode::RemLong2addr => 0xBF,
            Opcode::AndLong2addr => 0xC0,
            Opcode::OrLong2addr => 0xC1,
            Opcode::XorLong2addr => 0xC2,
            Opcode::ShlLong2addr => 0xC3,
            Opcode::ShrLong2addr => 0xC4,
            Opcode::UshrLong2addr => 0xC5,
            Opcode::AddFloat2addr => 0xC6,
            Opcode::SubFloat2addr => 0xC7,
            Opcode::MulFloat2addr => 0xC8,
            Opcode::DivFloat2addr => 0xC9,
            Opcode::RemFloat2addr => 0xCA,
            Opcode::AddDouble2addr => 0xCB,
            Opcode::SubDouble2addr => 0xCC,
            Opcode::MulDouble2addr => 0xCD,
            Opcode::DivDouble2addr => 0xCE,
            Opcode::RemDouble2addr => 0xCF,
            Opcode::AddIntLit16 => 0xD0,
            Opcode::RsubInt => 0xD1,
            Opcode::MulIntLit16 => 0xD2,
            Opcode::DivIntLit16 => 0xD3,
            Opcode::RemIntLit16 => 0xD4,
            Opcode::AndIntLit16 => 0xD5,
            Opcode::OrIntLit16 => 0xD6,
            Opcode::XorIntLit16 => 0xD7,
            Opcode::AddIntLit8 => 0xD8,
            Opcode::RsubIntLit8 => 0xD9,
            Opcode::MulIntLit8 => 0xDA,
            Opcode::DivIntLit8 => 0xDB,
            Opcode::RemIntLit8 => 0xDC,
            Opcode::AndIntLit8 => 0xDD,
            Opcode::OrIntLit8 => 0xDE,
            Opcode::XorIntLit8 => 0xDF,
            Opcode::ShlIntLit8 => 0xE0,
            Opcode::ShrIntLit8 => 0xE1,
            Opcode::UshrIntLit8 => 0xE2,
            Opcode::InvokePolymorphic => 0xFA,
            Opcode::InvokePolymorphicRange => 0xFB,
            Opcode::InvokeCustom => 0xFC,
            Opcode::InvokeCustomRange => 0xFD,
            Opcode::ConstMethodHandle => 0xFE,
            Opcode::ConstMethodType => 0xFF,
        }
    }

    /// Whether `b` is one of the bytes that no opcode is assigned to.
    pub open spec fn is_reserved(b: u8) -> bool {
        ||| 0x3E <= b <= 0x43
        ||| b == 0x73
        ||| 0x79 <= b <= 0x7A
        ||| 0xE3 <= b <= 0xF9
    }

    /// The opcode assigned to `b`, if any.
    pub open spec fn from_byte(b: u8) -> Option<Opcode> {
        if Self::is_reserved(b) {
            None
        } else {
            Some(choose|op: Opcode| op.byte() == b)
        }
    }

    /// The operand layout that the opcode table assigns to the opcode byte `b`.
    /// Reserved bytes have no layout; for them the value is `F10x` and carries
    /// no meaning.
    pub open spec fn kind_of_byte(b: u8) -> FormatKind {
        if b == 0x01 || b == 0x04 || b == 0x07 || b == 0x21 || 0x7B <= b <= 0x8F || 0xB0 <= b
            <= 0xCF {
            FormatKind::F12x
        } else if b == 0x02 || b == 0x05 || b == 0x08 {
            FormatKind::F22x
        } else if b == 0x03 || b == 0x06 || b == 0x09 {
            FormatKind::F32x
        } else if 0x0A <= b <= 0x0D || 0x0F <= b <= 0x11 || 0x1D <= b <= 0x1E || b == 0x27 {
            FormatKind::F11x
        } else if b == 0x12 {
            FormatKind::F11n
        } else if b == 0x13 || b == 0x16 {
            FormatKind::F21s
        } else if b == 0x14 || b == 0x17 {
            FormatKind::F31i
        } else if b == 0x15 || b == 0x19 {
            FormatKind::F21h
        } else if b == 0x18 {
            FormatKind::F51l
        } else if b == 0x1A || b == 0x1C || b == 0x1F || b == 0x22 || b == 0xFE || b == 0xFF
            || 0x60 <= b <= 0x6D {
            FormatKind::F21c
        } else if b == 0x1B {
            FormatKind::F31c
        } else if b == 0x20 || b == 0x23 || 0x52 <= b <= 0x5F {
            FormatKind::F22c
        } else if b == 0x24 || 0x6E <= b <= 0x72 || b == 0xFC {
            FormatKind::F35c
        } else if b == 0x25 || 0x74 <= b <= 0x78 || b == 0xFD {
            FormatKind::F3rc
        } else if b == 0x26 || 0x2B <= b <= 0x2C {
            FormatKind::F31t
        } else if b == 0x28 {
            FormatKind::F10t
        } else if b == 0x29 {
            FormatKind::F20t
        } else if b == 0x2A {
            FormatKind::F30t
        } else if 0x2D <= b <= 0x31 || 0x44 <= b <= 0x51 || 0x90 <= b <= 0xAF {
            FormatKind::F23x
        } else if 0x32 <= b <= 0x37 {
            FormatKind::F22t
        } else if 0x38 <= b <= 0x3D {
            FormatKind::F21t
        } else if 0xD0 <= b <= 0xD7 {
            FormatKind::F22s
        } else if 0xD8 <= b <= 0xE2 {
            FormatKind::F22b
        } else if b == 0xFA {
            FormatKind::F45cc
        } else if b == 0xFB {
            FormatKind::F4rcc
        } else {
            FormatKind::F10x
        }
    }

    /// The operand layout of this opcode.
    pub open spec fn kind(self) -> FormatKind {
        Self::kind_of_byte(self.byte())
    }

    /// Whether the opcode byte `b` belongs to the invoke family: the five
    /// plain invokes, their range forms, and the two polymorphic invokes.
    pub open spec fn is_invoke_byte(b: u8) -> bool {
        0x6E <= b <= 0x72 || 0x74 <= b <= 0x78 || b == 0xFA || b == 0xFB
    }

    /// No two opcodes share a byte.
    pub proof fn byte_is_injective(a: Opcode, b: Opcode)
        requires
            a.byte() == b.byte(),
        ensures
            a == b,
    {
    }

    /// Every opcode is found again from its byte, and no opcode has a
    /// reserved byte.
    pub proof fn from_byte_of_byte(op: Opcode)
        ensures
            !Self::is_reserved(op.byte()),
            Self::from_byte(op.byte()) == Some(op),
    {
        let b = op.byte();
        let found = choose|other: Opcode| other.byte() == b;
        Self::byte_is_injective(found, op);
    }

    /// The opcode byte of this opcode.
    pub fn to_u8(self) -> (b: u8)
        ensures
            b == self.byte(),
            Self::from_byte(b) == Some(self),
    {
        proof {
            Self::from_byte_of_byte(self);
        }
        match self {
            Opcode::Nop => 0x00,
            Opcode::Move => 0x01,
            Opcode::MoveFrom16 => 0x02,
            Opcode::Move16 => 0x03,
            Opcode::MoveWide => 0x04,
            Opcode::MoveWideFrom16 => 0x05,
            Opcode::MoveWide16 => 0x06,
            Opcode::MoveObject => 0x07,
            Opcode::MoveObjectFrom16 => 0x08,
            Opcode::MoveObject16 => 0x09,
            Opcode::MoveResult => 0x0A,
            Opcode::MoveResultWide => 0x0B,
            Opcode::MoveResultObject => 0x0C,
            Opcode::MoveException => 0x0D,
            Opcode::ReturnVoid => 0x0E,
            Opcode::Return => 0x0F,
            Opcode::ReturnWide => 0x10,
            Opcode::ReturnObject => 0x11,
            Opcode::Const4 => 0x12,
            Opcode::Const16 => 0x13,
            Opcode::Const => 0x14,
            Opcode::ConstHigh16 => 0x15,
            Opcode::ConstWide16 => 0x16,
            Opcode::ConstWide32 => 0x17,
            Opcode::ConstWide => 0x18,
            Opcode::ConstWideHigh16 => 0x19,
            Opcode::ConstString => 0x1A,
            Opcode::ConstStringJumbo => 0x1B,
            Opcode::ConstClass => 0x1C,
            Opcode::MonitorEnter => 0x1D,
            Opcode::MonitorExit => 0x1E,
            Opcode::CheckCast => 0x1F,
            Opcode::InstanceOf => 0x20,
            Opcode::ArrayLength => 0x21,
            Opcode::NewInstance => 0x22,
            Opcode::NewArray => 0x23,
            Opcode::FilledNewArray => 0x24,
            Opcode::FilledNewArrayRange => 0x25,
            Opcode::FillArrayData => 0x26,
            Opcode::Throw => 0x27,
            Opcode::Goto => 0x28,
            Opcode::Goto16 => 0x29,
            Opcode::Goto32 => 0x2A,
            Opcode::PackedSwitch => 0x2B,
            Opcode::SparseSwitch => 0x2C,
            Opcode::CmplFloat => 0x2D,
            Opcode::CmpgFloat => 0x2E,
            Opcode::CmplDouble => 0x2F,
            Opcode::CmpgDouble => 0x30,
            Opcode::CmpLong => 0x31,
            Opcode::IfEq => 0x32,
            Opcode::IfNe => 0x33,
            Opcode::IfLt => 0x34,
            Opcode::IfGe => 0x35,
            Opcode::IfGt => 0x36,
            Opcode::IfLe => 0x37,
            Opcode::IfEqz => 0x38,
            Opcode::IfNez => 0x39,
            Opcode::IfLtz => 0x3A,
            Opcode::IfGez => 0x3B,
            Opcode::IfGtz => 0x3C,
            Opcode::IfLez => 0x3D,
            Opcode::Aget => 0x44,
            Opcode::AgetWide => 0x45,
            Opcode::AgetObject => 0x46,
            Opcode::AgetBoolean => 0x47,
            Opcode::AgetByte => 0x48,
            Opcode::AgetChar => 0x49,
            Opcode::AgetShort => 0x4A,
            Opcode::Aput => 0x4B,
            Opcode::AputWide => 0x4C,
            Opcode::AputObject => 0x4D,
            Opcode::AputBoolean => 0x4E,
            Opcode::AputByte => 0x4F,
            Opcode::AputChar => 0x50,
            Opcode::AputShort => 0x51,
            Opcode::Iget => 0x52,
            Opcode::IgetWide => 0x53,
            Opcode::IgetObject => 0x54,
            Opcode::IgetBoolean => 0x55,
            Opcode::IgetByte => 0x56,
            Opcode::IgetChar => 0x57,
            Opcode::IgetShort => 0x58,
            Opcode::Iput => 0x59,
            Opcode::IputWide => 0x5A,
            Opcode::IputObject => 0x5B,
            Opcode::IputBoolean => 0x5C,
            Opcode::IputByte => 0x5D,
            Opcode::IputChar => 0x5E,
            Opcode::IputShort => 0x5F,
            Opcode::Sget => 0x60,
            Opcode::SgetWide => 0x61,
            Opcode::SgetObject => 0x62,
            Opcode::SgetBoolean => 0x63,
            Opcode::SgetByte => 0x64,
            Opcode::SgetChar => 0x65,
            Opcode::SgetShort => 0x66,
            Opcode::Sput => 0x67,
            Opcode::SputWide => 0x68,
            Opcode::SputObject => 0x69,
            Opcode::SputBoolean => 0x6A,
            Opcode::SputByte => 0x6B,
            Opcode::SputChar => 0x6C,
            Opcode::SputShort => 0x6D,
            Opcode::InvokeVirtual => 0x6E,
            Opcode::InvokeSuper => 0x6F,
            Opcode::InvokeDirect => 0x70,
            Opcode::InvokeStatic => 0x71,
            Opcode::InvokeInterface => 0x72,
            Opcode::InvokeVirtualRange => 0x74,
            Opcode::InvokeSuperRange => 0x75,
            Opcode::InvokeDirectRange => 0x76,
            Opcode::InvokeStaticRange => 0x77,
            Opcode::InvokeInterfaceRange => 0x78,
            Opcode::NegInt => 0x7B,
            Opcode::NotInt => 0x7C,
            Opcode::NegLong => 0x7D,
            Opcode::NotLong => 0x7E,
            Opcode::NegFloat => 0x7F,
            Opcode::NegDouble => 0x80,
            Opcode::IntToLong => 0x81,
            Opcode::IntToFloat => 0x82,
            Opcode::IntToDouble => 0x83,
            Opcode::LongToInt => 0x84,
            Opcode::LongToFloat => 0x85,
            Opcode::LongToDouble => 0x86,
            Opcode::FloatToInt => 0x87,
            Opcode::FloatToLong => 0x88,
            Opcode::FloatToDouble => 0x89,
            Opcode::DoubleToInt => 0x8A,
            Opcode::DoubleToLong => 0x8B,
            Opcode::DoubleToFloat => 0x8C,
            Opcode::IntToByte => 0x8D,
            Opcode::IntToChar => 0x8E,
            Opcode::IntToShort => 0x8F,
            Opcode::AddInt => 0x90,
            Opcode::SubInt => 0x91,
            Opcode::MulInt => 0x92,
            Opcode::DivInt => 0x93,
            Opcode::RemInt => 0x94,
            Opcode::AndInt => 0x95,
            Opcode::OrInt => 0x96,
            Opcode::XorInt => 0x97,
            Opcode::ShlInt => 0x98,
            Opcode::ShrInt => 0x99,
            Opcode::UshrInt => 0x9A,
            Opcode::AddLong => 0x9B,
            Opcode::SubLong => 0x9C,
            Opcode::MulLong => 0x9D,
            Opcode::DivLong => 0x9E,
            Opcode::RemLong => 0x9F,
            Opcode::AndLong => 0xA0,
            Opcode::OrLong => 0xA1,
            Opcode::XorLong => 0xA2,
            Opcode::ShlLong => 0xA3,
            Opcode::ShrLong => 0xA4,
            Opcode::UshrLong => 0xA5,
            Opcode::AddFloat => 0xA6,
            Opcode::SubFloat => 0xA7,
            Opcode::MulFloat => 0xA8,
            Opcode::DivFloat => 0xA9,
            Opcode::RemFloat => 0xAA,
            Opcode::AddDouble => 0xAB,
            Opcode::SubDouble => 0xAC,
            Opcode::MulDouble => 0xAD,
            Opcode::DivDouble => 0xAE,
            Opcode::RemDouble => 0xAF,
            Opcode::AddInt2addr => 0xB0,
            Opcode::SubInt2addr => 0xB1,
            Opcode::MulInt2addr => 0xB2,
            Opcode::DivInt2addr => 0xB3,
            Opcode::RemInt2addr => 0xB4,
            Opcode::AndInt2addr => 0xB5,
            Opcode::OrInt2addr => 0xB6,
            Opcode::XorInt2addr => 0xB7,
            Opcode::ShlInt2addr => 0xB8,
            Opcode::ShrInt2addr => 0xB9,
            Opcode::UshrInt2addr => 0xBA,
            Opcode::AddLong2addr => 0xBB,
            Opcode::SubLong2addr => 0xBC,
            Opcode::MulLong2addr => 0xBD,
            Opcode::DivLong2addr => 0xBE,
            Opcode::RemLong2addr => 0xBF,
            Opcode::AndLong2addr => 0xC0,
            Opcode::OrLong2addr => 0xC1,
            Opcode::XorLong2addr => 0xC2,
            Opcode::ShlLong2addr => 0xC3,
            Opcode::ShrLong2addr => 0xC4,
            Opcode::UshrLong2addr => 0xC5,
            Opcode::AddFloat2addr => 0xC6,
            Opcode::SubFloat2addr => 0xC7,
            Opcode::MulFloat2addr => 0xC8,
            Opcode::DivFloat2addr => 0xC9,
            Opcode::RemFloat2addr => 0xCA,
            Opcode::AddDouble2addr => 0xCB,
            Opcode::SubDouble2addr => 0xCC,
            Opcode::MulDouble2addr => 0xCD,
            Opcode::DivDouble2addr => 0xCE,
            Opcode::RemDouble2addr => 0xCF,
            Opcode::AddIntLit16 => 0xD0,
            Opcode::RsubInt => 0xD1,
            Opcode::MulIntLit16 => 0xD2,
            Opcode::DivIntLit16 => 0xD3,
            Opcode::RemIntLit16 => 0xD4,
            Opcode::AndIntLit16 => 0xD5,
            Opcode::OrIntLit16 => 0xD6,
            Opcode::XorIntLit16 => 0xD7,
            Opcode::AddIntLit8 => 0xD8,
            Opcode::RsubIntLit8 => 0xD9,
            Opcode::MulIntLit8 => 0xDA,
            Opcode::DivIntLit8 => 0xDB,
            Opcode::RemIntLit8 => 0xDC,
            Opcode::AndIntLit8 => 0xDD,
            Opcode::OrIntLit8 => 0xDE,
            Opcode::XorIntLit8 => 0xDF,
            Opcode::ShlIntLit8 => 0xE0,
            Opcode::ShrIntLit8 => 0xE1,
            Opcode::UshrIntLit8 => 0xE2,
            Opcode::InvokePolymorphic => 0xFA,
            Opcode::InvokePolymorphicRange => 0xFB,
            Opcode::InvokeCustom => 0xFC,
            Opcode::InvokeCustomRange => 0xFD,
            Opcode::ConstMethodHandle => 0xFE,
            Opcode::ConstMethodType => 0xFF,
        }
    }

    /// The table itself, from byte to opcode.
    fn lookup(b: u8) -> (r: Option<Opcode>)
        ensures
            r is None <==> Self::is_reserved(b),
            r matches Some(op) ==> op.byte() == b,
    {
        match b {
            0x00 => Some(Opcode::Nop),
            0x01 => Some(Opcode::Move),
            0x02 => Some(Opcode::MoveFrom16),
            0x03 => Some(Opcode::Move16),
            0x04 => Some(Opcode::MoveWide),
            0x05 => Some(Opcode::MoveWideFrom16),
            0x06 => Some(Opcode::MoveWide16),
            0x07 => Some(Opcode::MoveObject),
            0x08 => Some(Opcode::MoveObjectFrom16),
            0x09 => Some(Opcode::MoveObject16),
            0x0A => Some(Opcode::MoveResult),
            0x0B => Some(Opcode::MoveResultWide),
            0x0C => Some(Opcode::MoveResultObject),
            0x0D => Some(Opcode::MoveException),
            0x0E => Some(Opcode::ReturnVoid),
            0x0F => Some(Opcode::Return),
            0x10 => Some(Opcode::ReturnWide),
            0x11 => Some(Opcode::ReturnObject),
            0x12 => Some(Opcode::Const4),
            0x13 => Some(Opcode::Const16),
            0x14 => Some(Opcode::Const),
            0x15 => Some(Opcode::ConstHigh16),
            0x16 => Some(Opcode::ConstWide16),
            0x17 => Some(Opcode::ConstWide32),
            0x18 => Some(Opcode::ConstWide),
            0x19 => Some(Opcode::ConstWideHigh16),
            0x1A => Some(Opcode::ConstString),
            0x1B => Some(Opcode::ConstStringJumbo),
            0x1C => Some(Opcode::ConstClass),
            0x1D => Some(Opcode::MonitorEnter),
            0x1E => Some(Opcode::MonitorExit),
            0x1F => Some(Opcode::CheckCast),
            0x20 => Some(Opcode::InstanceOf),
            0x21 => Some(Opcode::ArrayLength),
            0x22 => Some(Opcode::NewInstance),
            0x23 => Some(Opcode::NewArray),
            0x24 => Some(Opcode::FilledNewArray),
            0x25 => Some(Opcode::FilledNewArrayRange),
            0x26 => Some(Opcode::FillArrayData),
            0x27 => Some(Opcode::Throw),
            0x28 => Some(Opcode::Goto),
            0x29 => Some(Opcode::Goto16),
            0x2A => Some(Opcode::Goto32),
            0x2B => Some(Opcode::PackedSwitch),
            0x2C => Some(Opcode::SparseSwitch),
            0x2D => Some(Opcode::CmplFloat),
            0x2E => Some(Opcode::CmpgFloat),
            0x2F => Some(Opcode::CmplDouble),
            0x30 => Some(Opcode::CmpgDouble),
            0x31 => Some(Opcode::CmpLong),
            0x32 => Some(Opcode::IfEq),
            0x33 => Some(Opcode::IfNe),
            0x34 => Some(Opcode::IfLt),
            0x35 => Some(Opcode::IfGe),
            0x36 => Some(Opcode::IfGt),
            0x37 => Some(Opcode::IfLe),
            0x38 => Some(Opcode::IfEqz),
            0x39 => Some(Opcode::IfNez),
            0x3A => Some(Opcode::IfLtz),
            0x3B => Some(Opcode::IfGez),
            0x3C => Some(Opcode::IfGtz),
            0x3D => Some(Opcode::IfLez),
            0x44 => Some(Opcode::Aget),
            0x45 => Some(Opcode::AgetWide),
            0x46 => Some(Opcode::AgetObject),
            0x47 => Some(Opcode::AgetBoolean),
            0x48 => Some(Opcode::AgetByte),
            0x49 => Some(Opcode::AgetChar),
            0x4A => Some(Opcode::AgetShort),
            0x4B => Some(Opcode::Aput),
            0x4C => Some(Opcode::AputWide),
            0x4D => Some(Opcode::AputObject),
            0x4E => Some(Opcode::AputBoolean),
            0x4F => Some(Opcode::AputByte),
            0x50 => Some(Opcode::AputChar),
            0x51 => Some(Opcode::AputShort),
            0x52 => Some(Opcode::Iget),
            0x53 => Some(Opcode::IgetWide),
            0x54 => Some(Opcode::IgetObject),
            0x55 => Some(Opcode::IgetBoolean),
            0x56 => Some(Opcode::IgetByte),
            0x57 => Some(Opcode::IgetChar),
            0x58 => Some(Opcode::IgetShort),
            0x59 => Some(Opcode::Iput),
            0x5A => Some(Opcode::IputWide),
            0x5B => Some(Opcode::IputObject),
            0x5C => Some(Opcode::IputBoolean),
            0x5D => Some(Opcode::IputByte),
            0x5E => Some(Opcode::IputChar),
            0x5F => Some(Opcode::IputShort),
            0x60 => Some(Opcode::Sget),
            0x61 => Some(Opcode::SgetWide),
            0x62 => Some(Opcode::SgetObject),
            0x63 => Some(Opcode::SgetBoolean),
            0x64 => Some(Opcode::SgetByte),
            0x65 => Some(Opcode::SgetChar),
            0x66 => Some(Opcode::SgetShort),
            0x67 => Some(Opcode::Sput),
            0x68 => Some(Opcode::SputWide),
            0x69 => Some(Opcode::SputObject),
            0x6A => Some(Opcode::SputBoolean),
            0x6B => Some(Opcode::SputByte),
            0x6C => Some(Opcode::SputChar),
            0x6D => Some(Opcode::SputShort),
            0x6E => Some(Opcode::InvokeVirtual),
            0x6F => Some(Opcode::InvokeSuper),
            0x70 => Some(Opcode::InvokeDirect),
            0x71 => Some(Opcode::InvokeStatic),
            0x72 => Some(Opcode::InvokeInterface),
            0x74 => Some(Opcode::InvokeVirtualRange),
            0x75 => Some(Opcode::InvokeSuperRange),
            0x76 => Some(Opcode::InvokeDirectRange),
            0x77 => Some(Opcode::InvokeStaticRange),
            0x78 => Some(Opcode::InvokeInterfaceRange),
            0x7B => Some(Opcode::NegInt),
            0x7C => Some(Opcode::NotInt),
            0x7D => Some(Opcode::NegLong),
            0x7E => Some(Opcode::NotLong),
            0x7F => Some(Opcode::NegFloat),
            0x80 => Some(Opcode::NegDouble),
            0x81 => Some(Opcode::IntToLong),
            0x82 => Some(Opcode::IntToFloat),
            0x83 => Some(Opcode::IntToDouble),
            0x84 => Some(Opcode::LongToInt),
            0x85 => Some(Opcode::LongToFloat),
            0x86 => Some(Opcode::LongToDouble),
            0x87 => Some(Opcode::FloatToInt),
            0x88 => Some(Opcode::FloatToLong),
            0x89 => Some(Opcode::FloatToDouble),
            0x8A => Some(Opcode::DoubleToInt),
            0x8B => Some(Opcode::DoubleToLong),
            0x8C => Some(Opcode::DoubleToFloat),
            0x8D => Some(Opcode::IntToByte),
            0x8E => Some(Opcode::IntToChar),
            0x8F => Some(Opcode::IntToShort),
            0x90 => Some(Opcode::AddInt),
            0x91 => Some(Opcode::SubInt),
            0x92 => Some(Opcode::MulInt),
            0x93 => Some(Opcode::DivInt),
            0x94 => Some(Opcode::RemInt),
            0x95 => Some(Opcode::AndInt),
            0x96 => Some(Opcode::OrInt),
            0x97 => Some(Opcode::XorInt),
            0x98 => Some(Opcode::ShlInt),
            0x99 => Some(Opcode::ShrInt),
            0x9A => Some(Opcode::UshrInt),
            0x9B => Some(Opcode::AddLong),
            0x9C => Some(Opcode::SubLong),
            0x9D => Some(Opcode::MulLong),
            0x9E => Some(Opcode::DivLong),
            0x9F => Some(Opcode::RemLong),
            0xA0 => Some(Opcode::AndLong),
            0xA1 => Some(Opcode::OrLong),
            0xA2 => Some(Opcode::XorLong),
            0xA3 => Some(Opcode::ShlLong),
            0xA4 => Some(Opcode::ShrLong),
            0xA5 => Some(Opcode::UshrLong),
            0xA6 => Some(Opcode::AddFloat),
            0xA7 => Some(Opcode::SubFloat),
            0xA8 => Some(Opcode::MulFloat),
            0xA9 => Some(Opcode::DivFloat),
            0xAA => Some(Opcode::RemFloat),
            0xAB => Some(Opcode::AddDouble),
            0xAC => Some(Opcode::SubDouble),
            0xAD => Some(Opcode::MulDouble),
            0xAE => Some(Opcode::DivDouble),
            0xAF => Some(Opcode::RemDouble),
            0xB0 => Some(Opcode::AddInt2addr),
            0xB1 => Some(Opcode::SubInt2addr),
            0xB2 => Some(Opcode::MulInt2addr),
            0xB3 => Some(Opcode::DivInt2addr),
            0xB4 => Some(Opcode::RemInt2addr),
            0xB5 => Some(Opcode::AndInt2addr),
            0xB6 => Some(Opcode::OrInt2addr),
            0xB7 => Some(Opcode::XorInt2addr),
            0xB8 => Some(Opcode::ShlInt2addr),
            0xB9 => Some(Opcode::ShrInt2addr),
            0xBA => Some(Opcode::UshrInt2addr),
            0xBB => Some(Opcode::AddLong2addr),
            0xBC => Some(Opcode::SubLong2addr),
            0xBD => Some(Opcode::MulLong2addr),
            0xBE => Some(Opcode::DivLong2addr),
            0xBF => Some(Opcode::RemLong2addr),
            0xC0 => Some(Opcode::AndLong2addr),
            0xC1 => Some(Opcode::OrLong2addr),
            0xC2 => Some(Opcode::XorLong2addr),
            0xC3 => Some(Opcode::ShlLong2addr),
            0xC4 => Some(Opcode::ShrLong2addr),
            0xC5 => Some(Opcode::UshrLong2addr),
            0xC6 => Some(Opcode::AddFloat2addr),
            0xC7 => Some(Opcode::SubFloat2addr),
            0xC8 => Some(Opcode::MulFloat2addr),
            0xC9 => Some(Opcode::DivFloat2addr),
            0xCA => Some(Opcode::RemFloat2addr),
            0xCB => Some(Opcode::AddDouble2addr),
            0xCC => Some(Opcode::SubDouble2addr),
            0xCD => Some(Opcode::MulDouble2addr),
            0xCE => Some(Opcode::DivDouble2addr),
            0xCF => Some(Opcode::RemDouble2addr),
            0xD0 => Some(Opcode::AddIntLit16),
            0xD1 => Some(Opcode::RsubInt),
            0xD2 => Some(Opcode::MulIntLit16),
            0xD3 => Some(Opcode::DivIntLit16),
            0xD4 => Some(Opcode::RemIntLit16),
            0xD5 => Some(Opcode::AndIntLit16),
            0xD6 => Some(Opcode::OrIntLit16),
            0xD7 => Some(Opcode::XorIntLit16),
            0xD8 => Some(Opcode::AddIntLit8),
            0xD9 => Some(Opcode::RsubIntLit8),
            0xDA => Some(Opcode::MulIntLit8),
            0xDB => Some(Opcode::DivIntLit8),
            0xDC => Some(Opcode::RemIntLit8),
            0xDD => Some(Opcode::AndIntLit8),
            0xDE => Some(Opcode::OrIntLit8),
            0xDF => Some(Opcode::XorIntLit8),
            0xE0 => Some(Opcode::ShlIntLit8),
            0xE1 => Some(Opcode::ShrIntLit8),
            0xE2 => Some(Opcode::UshrIntLit8),
            0xFA => Some(Opcode::InvokePolymorphic),
            0xFB => Some(Opcode::InvokePolymorphicRange),
            0xFC => Some(Opcode::InvokeCustom),
            0xFD => Some(Opcode::InvokeCustomRange),
            0xFE => Some(Opcode::ConstMethodHandle),
            0xFF => Some(Opcode::ConstMethodType),
            _ => None,
        }
    }

    /// Looks the opcode byte `b` up in the table. Reserved bytes give `None`.
    pub fn from_u8(b: u8) -> (r: Option<Opcode>)
        ensures
            r == Self::from_byte(b),
            r is None <==> Self::is_reserved(b),
            r matches Some(op) ==> op.byte() == b,
    {
        let r = Self::lookup(b);
        proof {
            if let Some(op) = r {
                Self::from_byte_of_byte(op);
            }
        }
        r
    }

    /// The operand layout of this opcode.
    pub fn format_kind(self) -> (k: FormatKind)
        ensures
            k == self.kind(),
    {
        let b = self.to_u8();
        match b {
            0x01 | 0x04 | 0x07 | 0x21 | 0x7B..=0x8F | 0xB0..=0xCF => FormatKind::F12x,
            0x02 | 0x05 | 0x08 => FormatKind::F22x,
            0x03 | 0x06 | 0x09 => FormatKind::F32x,
            0x0A..=0x0D | 0x0F..=0x11 | 0x1D..=0x1E | 0x27 => FormatKind::F11x,
            0x12 => FormatKind::F11n,
            0x13 | 0x16 => FormatKind::F21s,
            0x14 | 0x17 => FormatKind::F31i,
            0x15 | 0x19 => FormatKind::F21h,
            0x18 => FormatKind::F51l,
            0x1A | 0x1C | 0x1F | 0x22 | 0x60..=0x6D | 0xFE..=0xFF => FormatKind::F21c,
            0x1B => FormatKind::F31c,
            0x20 | 0x23 | 0x52..=0x5F => FormatKind::F22c,
            0x24 | 0x6E..=0x72 | 0xFC => FormatKind::F35c,
            0x25 | 0x74..=0x78 | 0xFD => FormatKind::F3rc,
            0x26 | 0x2B..=0x2C => FormatKind::F31t,
            0x28 => FormatKind::F10t,
            0x29 => FormatKind::F20t,
            0x2A => FormatKind::F30t,
            0x2D..=0x31 | 0x44..=0x51 | 0x90..=0xAF => FormatKind::F23x,
            0x32..=0x37 => FormatKind::F22t,
            0x38..=0x3D => FormatKind::F21t,
            0xD0..=0xD7 => FormatKind::F22s,
            0xD8..=0xE2 => FormatKind::F22b,
            0xFA => FormatKind::F45cc,
            0xFB => FormatKind::F4rcc,
            _ => FormatKind::F10x,
        }
    }

    /// Whether this opcode calls a method: the five plain invokes, their range
    /// forms, and the two polymorphic invokes.
    pub fn is_invoke(self) -> (r: bool)
        ensures
            r == Self::is_invoke_byte(self.byte()),
    {
        let b = self.to_u8();
        (0x6E <= b && b <= 0x72) || (0x74 <= b && b <= 0x78) || b == 0xFA || b == 0xFB
    }
}

} // verus!
