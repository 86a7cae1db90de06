//! The operand records of the Dalvik instruction formats.

use vstd::prelude::*;
use super::opcode::FormatKind;

verus! {

/// Two 4-bit registers.
#[derive(Clone, Copy, Debug, PartialEq, Eq)]
pub struct F12x {
    pub va: u8,
    pub vb: u8,
}

/// A 4-bit register and a 4-bit literal.
#[derive(Clone, Copy, Debug, PartialEq, Eq)]
pub struct F11n {
    pub va: u8,
    pub literal: i8,
}

/// One 8-bit register.
#[derive(Clone, Copy, Debug, PartialEq, Eq)]
pub struct F11x {
    pub va: u8,
}

/// An 8-bit branch offset.
#[derive(Clone, Copy, Debug, PartialEq, Eq)]
pub struct F10t {
    pub offset: i8,
}

/// A 16-bit branch offset.
#[derive(Clone, Copy, Debug, PartialEq, Eq)]
pub struct F20t {
    pub offset: i16,
}

/// An 8-bit error kind and a 16-bit pool index.
#[derive(Clone, Copy, Debug, PartialEq, Eq)]
pub struct F20bc {
    pub va: u8,
    pub idx: u16,
}

/// An 8-bit register and a 16-bit register.
#[derive(Clone, Copy, Debug, PartialEq, Eq)]
pub struct F22x {
    pub va: u8,
    pub vb: u16,
}

/// An 8-bit register and a 16-bit branch offset.
#[derive(Clone, Copy, Debug, PartialEq, Eq)]
pub struct F21t {
    pub va: u8,
    pub offset: i16,
}

/// An 8-bit register and a 16-bit literal.
#[derive(Clone, Copy, Debug, PartialEq, Eq)]
pub struct F21s {
    pub va: u8,
    pub literal: i16,
}

/// An 8-bit register and the high 16 bits of a literal.
#[derive(Clone, Copy, Debug, PartialEq, Eq)]
pub struct F21h {
    pub va: u8,
    pub literal: i16,
}

/// An 8-bit register and a 16-bit pool index.
#[derive(Clone, Copy, Debug, PartialEq, Eq)]
pub struct F21c {
    pub dst: u8,
    pub idx: u16,
}

/// Three 8-bit registers.
#[derive(Clone, Copy, Debug, PartialEq, Eq)]
pub struct F23x {
    pub va: u8,
    pub vb: u8,
    pub vc: u8,
}

/// Two 8-bit registers and an 8-bit literal.
#[derive(Clone, Copy, Debug, PartialEq, Eq)]
pub struct F22b {
    pub va: u8,
    pub vb: u8,
    pub literal: i8,
}

/// Two 4-bit registers and a 16-bit branch offset.
#[derive(Clone, Copy, Debug, PartialEq, Eq)]
pub struct F22t {
    pub va: u8,
    pub vb: u8,
    pub offset: i16,
}

/// Two 4-bit registers and a 16-bit literal.
#[derive(Clone, Copy, Debug, PartialEq, Eq)]
pub struct F22s {
    pub va: u8,
    pub vb: u8,
    pub literal: i16,
}

/// Two 4-bit registers and a 16-bit pool index.
#[derive(Clone, Copy, Debug, PartialEq, Eq)]
pub struct F22c {
    pub va: u8,
    pub vb: u8,
    pub idx: u16,
}

/// Two 4-bit registers and a 16-bit field offset.
#[derive(Clone, Copy, Debug, PartialEq, Eq)]
pub struct F22cs {
    pub va: u8,
    pub vb: u8,
    pub idx: u16,
}

/// A 32-bit branch offset.
#[derive(Clone, Copy, Debug, PartialEq, Eq)]
pub struct F30t {
    pub offset: i32,
}

/// Two 16-bit registers.
#[derive(Clone, Copy, Debug, PartialEq, Eq)]
pub struct F32x {
    pub va: u16,
    pub vb: u16,
}

/// An 8-bit register and a 32-bit literal.
#[derive(Clone, Copy, Debug, PartialEq, Eq)]
pub struct F31i {
    pub va: u8,
    pub literal: i32,
}

/// An 8-bit register and a 32-bit branch offset.
#[derive(Clone, Copy, Debug, PartialEq, Eq)]
pub struct F31t {
    pub va: u8,
    pub offset: i32,
}

/// An 8-bit register and a 32-bit pool index.
#[derive(Clone, Copy, Debug, PartialEq, Eq)]
pub struct F31c {
    pub va: u8,
    pub idx: u32,
}

/// An argument count, up to five 4-bit registers and a 16-bit pool index.
#[derive(Clone, Copy, Debug, PartialEq, Eq)]
pub struct F35c {
    pub argc: u8,
    pub args: [u8; 5],
    pub idx: u16,
}

/// An argument count, up to five 4-bit registers and a 16-bit vtable offset.
#[derive(Clone, Copy, Debug, PartialEq, Eq)]
pub struct F35ms {
    pub va: u8,
    pub args: [u8; 5],
    pub idx: u16,
}

/// An argument count, up to five 4-bit registers and a 16-bit inline index.
#[derive(Clone, Copy, Debug, PartialEq, Eq)]
pub struct F35mi {
    pub va: u8,
    pub args: [u8; 5],
    pub idx: u16,
}

/// An argument count, the first register of a range and a 16-bit pool index.
#[derive(Clone, Copy, Debug, PartialEq, Eq)]
pub struct F3rc {
    pub argc: u8,
    pub reg: u16,
    pub idx: u16,
}

/// An argument count, the first register of a range and a 16-bit vtable offset.
#[derive(Clone, Copy, Debug, PartialEq, Eq)]
pub struct F3rms {
    pub va: u8,
    pub reg: u16,
    pub idx: u16,
}

/// An argument count, the first register of a range and a 16-bit inline index.
#[derive(Clone, Copy, Debug, PartialEq, Eq)]
pub struct F3rmi {
    pub va: u8,
    pub reg: u16,
    pub idx: u16,
}

/// An argument count, up to five 4-bit registers, a method index and a prototype index.
#[derive(Clone, Copy, Debug, PartialEq, Eq)]
pub struct F45cc {
    pub argc: u8,
    pub vg: u8,
    pub args: [u8; 5],
    pub meth: u16,
    pub proto: u16,
}

/// An argument count, the first register of a range, a method index and a prototype index.
#[derive(Clone, Copy, Debug, PartialEq, Eq)]
pub struct F4rcc {
    pub argc: u8,
    pub reg: u16,
    pub meth: u16,
    pub proto: u16,
}

/// An 8-bit register and a 64-bit literal.
#[derive(Clone, Copy, Debug, PartialEq, Eq)]
pub struct F51l {
    pub va: u8,
    pub literal: i64,
}

/// The operands of one instruction, in the layout of its opcode.
#[derive(Clone, Copy, Debug, PartialEq, Eq)]
pub enum Format {
    F10x,
    F12x(F12x),
    F11n(F11n),
    F11x(F11x),
    F10t(F10t),
    F20t(F20t),
    F20bc(F20bc),
    F22x(F22x),
    F21t(F21t),
    F21s(F21s),
    F21h(F21h),
    F21c(F21c),
    F23x(F23x),
    F22b(F22b),
    F22t(F22t),
    F22s(F22s),
    F22c(F22c),
    F22cs(F22cs),
    F30t(F30t),
    F32x(F32x),
    F31i(F31i),
    F31t(F31t),
    F31c(F31c),
    F35c(F35c),
    F35ms(F35ms),
    F35mi(F35mi),
    F3rc(F3rc),
    F3rms(F3rms),
    F3rmi(F3rmi),
    F45cc(F45cc),
    F4rcc(F4rcc),
    F51l(F51l),
}

impl Format {
    /// The layout this record is in.
    pub open spec fn kind(self) -> FormatKind {
        match self {
            Format::F10x => FormatKind::F10x,
            Format::F12x(_) => FormatKind::F12x,
            Format::F11n(_) => FormatKind::F11n,
            Format::F11x(_) => FormatKind::F11x,
            Format::F10t(_) => FormatKind::F10t,
            Format::F20t(_) => FormatKind::F20t,
            Format::F20bc(_) => FormatKind::F20bc,
            Format::F22x(_) => FormatKind::F22x,
            Format::F21t(_) => FormatKind::F21t,
            Format::F21s(_) => FormatKind::F21s,
            Format::F21h(_) => FormatKind::F21h,
            Format::F21c(_) => FormatKind::F21c,
            Format::F23x(_) => FormatKind::F23x,
            Format::F22b(_) => FormatKind::F22b,
            Format::F22t(_) => FormatKind::F22t,
            Format::F22s(_) => FormatKind::F22s,
            Format::F22c(_) => FormatKind::F22c,
            Format::F22cs(_) => FormatKind::F22cs,
            Format::F30t(_) => FormatKind::F30t,
            Format::F32x(_) => FormatKind::F32x,
            Format::F31i(_) => FormatKind::F31i,
            Format::F31t(_) => FormatKind::F31t,
            Format::F31c(_) => FormatKind::F31c,
            Format::F35c(_) => FormatKind::F35c,
            Format::F35ms(_) => FormatKind::F35ms,
            Format::F35mi(_) => FormatKind::F35mi,
            Format::F3rc(_) => FormatKind::F3rc,
            Format::F3rms(_) => FormatKind::F3rms,
            Format::F3rmi(_) => FormatKind::F3rmi,
            Format::F45cc(_) => FormatKind::F45cc,
            Format::F4rcc(_) => FormatKind::F4rcc,
            Format::F51l(_) => FormatKind::F51l,
        }
    }

    /// The signed branch offset, in code units, of the layouts that have one.
    pub open spec fn branch_offset(self) -> Option<i32> {
        match self {
            Format::F10t(f) => Some(f.offset as i32),
            Format::F20t(f) => Some(f.offset as i32),
            Format::F21t(f) => Some(f.offset as i32),
            Format::F22t(f) => Some(f.offset as i32),
            Format::F30t(f) => Some(f.offset),
            Format::F31t(f) => Some(f.offset),
            _ => None,
        }
    }

    /// The method index that an invoke carries: `idx` in the layouts 35c and
    /// 3rc, `meth` in 45cc and 4rcc.
    pub open spec fn method_ref(self) -> Option<u16> {
        match self {
            Format::F35c(f) => Some(f.idx),
            Format::F3rc(f) => Some(f.idx),
            Format::F45cc(f) => Some(f.meth),
            Format::F4rcc(f) => Some(f.meth),
            _ => None,
        }
    }

    /// The layout this record is in.
    pub fn format_kind(&self) -> (k: FormatKind)
        ensures
            k == self.kind(),
    {
        match self {
            Format::F10x => FormatKind::F10x,
            Format::F12x(_) => FormatKind::F12x,
            Format::F11n(_) => FormatKind::F11n,
            Format::F11x(_) => FormatKind::F11x,
            Format::F10t(_) => FormatKind::F10t,
            Format::F20t(_) => FormatKind::F20t,
            Format::F20bc(_) => FormatKind::F20bc,
            Format::F22x(_) => FormatKind::F22x,
            Format::F21t(_) => FormatKind::F21t,
            Format::F21s(_) => FormatKind::F21s,
            Format::F21h(_) => FormatKind::F21h,
            Format::F21c(_) => FormatKind::F21c,
            Format::F23x(_) => FormatKind::F23x,
            Format::F22b(_) => FormatKind::F22b,
            Format::F22t(_) => FormatKind::F22t,
            Format::F22s(_) => FormatKind::F22s,
            Format::F22c(_) => FormatKind::F22c,
            Format::F22cs(_) => FormatKind::F22cs,
            Format::F30t(_) => FormatKind::F30t,
            Format::F32x(_) => FormatKind::F32x,
            Format::F31i(_) => FormatKind::F31i,
            Format::F31t(_) => FormatKind::F31t,
            Format::F31c(_) => FormatKind::F31c,
            Format::F35c(_) => FormatKind::F35c,
            Format::F35ms(_) => FormatKind::F35ms,
            Format::F35mi(_) => FormatKind::F35mi,
            Format::F3rc(_) => FormatKind::F3rc,
            Format::F3rms(_) => FormatKind::F3rms,
            Format::F3rmi(_) => FormatKind::F3rmi,
            Format::F45cc(_) => FormatKind::F45cc,
            Format::F4rcc(_) => FormatKind::F4rcc,
            Format::F51l(_) => FormatKind::F51l,
        }
    }

    /// Length of the instruction in 16-bit code units.
    pub fn len(&self) -> (n: usize)
        ensures
            n == self.kind().units(),
            1 <= n <= 5,
    {
        match self {
            Format::F10x | Format::F12x(_) | Format::F11n(_) | Format::F11x(_) | Format::F10t(_) => 1,
            Format::F20t(_) | Format::F20bc(_) | Format::F22x(_) | Format::F21t(_)
            | Format::F21s(_) | Format::F21h(_) | Format::F21c(_) | Format::F23x(_)
            | Format::F22b(_) | Format::F22t(_) | Format::F22s(_) | Format::F22c(_)
            | Format::F22cs(_) => 2,
            Format::F30t(_) | Format::F32x(_) | Format::F31i(_) | Format::F31t(_)
            | Format::F31c(_) | Format::F35c(_) | Format::F35ms(_) | Format::F35mi(_)
            | Format::F3rc(_) | Format::F3rms(_) | Format::F3rmi(_) => 3,
            Format::F45cc(_) | Format::F4rcc(_) => 4,
            Format::F51l(_) => 5,
        }
    }

    /// The signed branch offset in code units. Only the branching layouts
    /// (10t, 20t, 21t, 22t, 30t, 31t) have one.
    pub fn offset(&self) -> (r: Option<i32>)
        ensures
            r == self.branch_offset(),
    {
        match *self {
            Format::F10t(F10t { offset }) => Some(offset as i32),
            Format::F20t(F20t { offset }) => Some(offset as i32),
            Format::F21t(F21t { offset, .. }) => Some(offset as i32),
            Format::F22t(F22t { offset, .. }) => Some(offset as i32),
            Format::F30t(F30t { offset }) => Some(offset),
            Format::F31t(F31t { offset, .. }) => Some(offset),
            _ => None,
        }
    }

    /// The method index that an invoke carries, if this layout has one.
    pub fn method_index(&self) -> (r: Option<u16>)
        ensures
            r == self.method_ref(),
    {
        match self {
            Format::F35c(f) => Some(f.idx),
            Format::F3rc(f) => Some(f.idx),
            Format::F45cc(f) => Some(f.meth),
            Format::F4rcc(f) => Some(f.meth),
            _ => None,
        }
    }

    /// The operands, if they are in the layout 12x.
    pub fn as_12x(&self) -> (r: Option<&F12x>)
        ensures
            match *self {
                Format::F12x(f) => r == Some(&f),
                _ => r is None,
            },
    {
        match self {
            Format::F12x(f) => Some(f),
            _ => None,
        }
    }

    /// The operands, if they are in the layout 11n.
    pub fn as_11n(&self) -> (r: Option<&F11n>)
        ensures
            match *self {
                Format::F11n(f) => r == Some(&f),
                _ => r is None,
            },
    {
        match self {
            Format::F11n(f) => Some(f),
            _ => None,
        }
    }

    /// The operands, if they are in the layout 11x.
    pub fn as_11x(&self) -> (r: Option<&F11x>)
        ensures
            match *self {
                Format::F11x(f) => r == Some(&f),
                _ => r is None,
            },
    {
        match self {
            Format::F11x(f) => Some(f),
            _ => None,
        }
    }

    /// The operands, if they are in the layout 10t.
    pub fn as_10t(&self) -> (r: Option<&F10t>)
        ensures
            match *self {
                Format::F10t(f) => r == Some(&f),
                _ => r is None,
            },
    {
        match self {
            Format::F10t(f) => Some(f),
            _ => None,
        }
    }

    /// The operands, if they are in the layout 20t.
    pub fn as_20t(&self) -> (r: Option<&F20t>)
        ensures
            match *self {
                Format::F20t(f) => r == Some(&f),
                _ => r is None,
            },
    {
        match self {
            Format::F20t(f) => Some(f),
            _ => None,
        }
    }

    /// The operands, if they are in the layout 20bc.
    pub fn as_20bc(&self) -> (r: Option<&F20bc>)
        ensures
            match *self {
                Format::F20bc(f) => r == Some(&f),
                _ => r is None,
            },
    {
        match self {
            Format::F20bc(f) => Some(f),
            _ => None,
        }
    }

    /// The operands, if they are in the layout 22x.
    pub fn as_22x(&self) -> (r: Option<&F22x>)
        ensures
            match *self {
                Format::F22x(f) => r == Some(&f),
                _ => r is None,
            },
    {
        match self {
            Format::F22x(f) => Some(f),
            _ => None,
        }
    }

    /// The operands, if they are in the layout 21t.
    pub fn as_21t(&self) -> (r: Option<&F21t>)
        ensures
            match *self {
                Format::F21t(f) => r == Some(&f),
                _ => r is None,
            },
    {
        match self {
            Format::F21t(f) => Some(f),
            _ => None,
        }
    }

    /// The operands, if they are in the layout 21s.
    pub fn as_21s(&self) -> (r: Option<&F21s>)
        ensures
            match *self {
                Format::F21s(f) => r == Some(&f),
                _ => r is None,
            },
    {
        match self {
            Format::F21s(f) => Some(f),
            _ => None,
        }
    }

    /// The operands, if they are in the layout 21h.
    pub fn as_21h(&self) -> (r: Option<&F21h>)
        ensures
            match *self {
                Format::F21h(f) => r == Some(&f),
                _ => r is None,
            },
    {
        match self {
            Format::F21h(f) => Some(f),
            _ => None,
        }
    }

    /// The operands, if they are in the layout 21c.
    pub fn as_21c(&self) -> (r: Option<&F21c>)
        ensures
            match *self {
                Format::F21c(f) => r == Some(&f),
                _ => r is None,
            },
    {
        match self {
            Format::F21c(f) => Some(f),
            _ => None,
        }
    }

    /// The operands, if they are in the layout 23x.
    pub fn as_23x(&self) -> (r: Option<&F23x>)
        ensures
            match *self {
                Format::F23x(f) => r == Some(&f),
                _ => r is None,
            },
    {
        match self {
            Format::F23x(f) => Some(f),
            _ => None,
        }
    }

    /// The operands, if they are in the layout 22b.
    pub fn as_22b(&self) -> (r: Option<&F22b>)
        ensures
            match *self {
                Format::F22b(f) => r == Some(&f),
                _ => r is None,
            },
    {
        match self {
            Format::F22b(f) => Some(f),
            _ => None,
        }
    }

    /// The operands, if they are in the layout 22t.
    pub fn as_22t(&self) -> (r: Option<&F22t>)
        ensures
            match *self {
                Format::F22t(f) => r == Some(&f),
                _ => r is None,
            },
    {
        match self {
            Format::F22t(f) => Some(f),
            _ => None,
        }
    }

    /// The operands, if they are in the layout 22s.
    pub fn as_22s(&self) -> (r: Option<&F22s>)
        ensures
            match *self {
                Format::F22s(f) => r == Some(&f),
                _ => r is None,
            },
    {
        match self {
            Format::F22s(f) => Some(f),
            _ => None,
        }
    }

    /// The operands, if they are in the layout 22c.
    pub fn as_22c(&self) -> (r: Option<&F22c>)
        ensures
            match *self {
                Format::F22c(f) => r == Some(&f),
                _ => r is None,
            },
    {
        match self {
            Format::F22c(f) => Some(f),
            _ => None,
        }
    }

    /// The operands, if they are in the layout 22cs.
    pub fn as_22cs(&self) -> (r: Option<&F22cs>)
        ensures
            match *self {
                Format::F22cs(f) => r == Some(&f),
                _ => r is None,
            },
    {
        match self {
            Format::F22cs(f) => Some(f),
            _ => None,
        }
    }

    /// The operands, if they are in the layout 30t.
    pub fn as_30t(&self) -> (r: Option<&F30t>)
        ensures
            match *self {
                Format::F30t(f) => r == Some(&f),
                _ => r is None,
            },
    {
        match self {
            Format::F30t(f) => Some(f),
            _ => None,
        }
    }

    /// The operands, if they are in the layout 32x.
    pub fn as_32x(&self) -> (r: Option<&F32x>)
        ensures
            match *self {
                Format::F32x(f) => r == Some(&f),
                _ => r is None,
            },
    {
        match self {
            Format::F32x(f) => Some(f),
            _ => None,
        }
    }

    /// The operands, if they are in the layout 31i.
    pub fn as_31i(&self) -> (r: Option<&F31i>)
        ensures
            match *self {
                Format::F31i(f) => r == Some(&f),
                _ => r is None,
            },
    {
        match self {
            Format::F31i(f) => Some(f),
            _ => None,
        }
    }

    /// The operands, if they are in the layout 31t.
    pub fn as_31t(&self) -> (r: Option<&F31t>)
        ensures
            match *self {
                Format::F31t(f) => r == Some(&f),
                _ => r is None,
            },
    {
        match self {
            Format::F31t(f) => Some(f),
            _ => None,
        }
    }

    /// The operands, if they are in the layout 31c.
    pub fn as_31c(&self) -> (r: Option<&F31c>)
        ensures
            match *self {
                Format::F31c(f) => r == Some(&f),
                _ => r is None,
            },
    {
        match self {
            Format::F31c(f) => Some(f),
            _ => None,
        }
    }

    /// The operands, if they are in the layout 35c.
    pub fn as_35c(&self) -> (r: Option<&F35c>)
        ensures
            match *self {
                Format::F35c(f) => r == Some(&f),
                _ => r is None,
            },
    {
        match self {
            Format::F35c(f) => Some(f),
            _ => None,
        }
    }

    /// The operands, if they are in the layout 35ms.
    pub fn as_35ms(&self) -> (r: Option<&F35ms>)
        ensures
            match *self {
                Format::F35ms(f) => r == Some(&f),
                _ => r is None,
            },
    {
        match self {
            Format::F35ms(f) => Some(f),
            _ => None,
        }
    }

    /// The operands, if they are in the layout 35mi.
    pub fn as_35mi(&self) -> (r: Option<&F35mi>)
        ensures
            match *self {
                Format::F35mi(f) => r == Some(&f),
                _ => r is None,
            },
    {
        match self {
            Format::F35mi(f) => Some(f),
            _ => None,
        }
    }

    /// The operands, if they are in the layout 3rc.
    pub fn as_3rc(&self) -> (r: Option<&F3rc>)
        ensures
            match *self {
                Format::F3rc(f) => r == Some(&f),
                _ => r is None,
            },
    {
        match self {
            Format::F3rc(f) => Some(f),
            _ => None,
        }
    }

    /// The operands, if they are in the layout 3rms.
    pub fn as_3rms(&self) -> (r: Option<&F3rms>)
        ensures
            match *self {
                Format::F3rms(f) => r == Some(&f),
                _ => r is None,
            },
    {
        match self {
            Format::F3rms(f) => Some(f),
            _ => None,
        }
    }

    /// The operands, if they are in the layout 3rmi.
    pub fn as_3rmi(&self) -> (r: Option<&F3rmi>)
        ensures
            match *self {
                Format::F3rmi(f) => r == Some(&f),
                _ => r is None,
            },
    {
        match self {
            Format::F3rmi(f) => Some(f),
            _ => None,
        }
    }

    /// The operands, if they are in the layout 45cc.
    pub fn as_45cc(&self) -> (r: Option<&F45cc>)
        ensures
            match *self {
                Format::F45cc(f) => r == Some(&f),
                _ => r is None,
            },
    {
        match self {
            Format::F45cc(f) => Some(f),
            _ => None,
        }
    }

    /// The operands, if they are in the layout 4rcc.
    pub fn as_4rcc(&self) -> (r: Option<&F4rcc>)
        ensures
            match *self {
                Format::F4rcc(f) => r == Some(&f),
                _ => r is None,
            },
    {
        match self {
            Format::F4rcc(f) => Some(f),
            _ => None,
        }
    }

    /// The operands, if they are in the layout 51l.
    pub fn as_51l(&self) -> (r: Option<&F51l>)
        ensures
            match *self {
                Format::F51l(f) => r == Some(&f),
                _ => r is None,
            },
    {
        match self {
            Format::F51l(f) => Some(f),
            _ => None,
        }
    }

}

} // verus!
