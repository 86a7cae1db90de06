//! The instruction decoder: from a stream of 16-bit code units to
//! instructions and the payload tables that are embedded among them.

use vstd::prelude::*;
use super::bits::{
    byte_to_nibbles, dword, high_byte, high_nibble, join_dwords, join_words, low_byte, low_nibble,
    qword, signed16, signed32, signed64, signed8, to_signed16, to_signed32, to_signed64, to_signed8,
    word_to_bytes, word_to_nibbles,
};
use super::error::InstructionError;
use super::format::{
    Format, F12x, F11n, F11x, F10t, F20t, F20bc, F22x, F21t, F21s, F21h, F21c, F23x, F22b, F22t,
    F22s, F22c, F22cs, F30t, F32x, F31i, F31t, F31c, F35c, F35ms, F35mi, F3rc, F3rms, F3rmi,
    F45cc, F4rcc, F51l,
};
use super::opcode::{FormatKind, Opcode};
use super::table::{entries_map, SwitchTable};

verus! {

/// One decoded item of a method's code.
#[derive(Clone, Debug, PartialEq, Eq)]
pub enum Instruction {
    /// An ordinary instruction.
    Regular { op: Opcode, format: Format },
    /// The table of a packed or sparse switch. It maps each case key to a
    /// branch offset in code units, relative to the switch instruction that
    /// refers to the table.
    SwitchPayload { kv: SwitchTable, code_units: usize },
    /// The literal array of a fill-array-data instruction: `data` holds the
    /// elements, each `element_width` bytes wide.
    FillArrayPayload { element_width: usize, data: Vec<Vec<u8>>, code_units: usize },
}

/// What an [`Instruction`] stands for.
pub enum InstructionView {
    Regular { op: Opcode, format: Format },
    SwitchPayload { kv: Map<i32, i32>, code_units: usize },
    FillArrayPayload { element_width: usize, data: Seq<Seq<u8>>, code_units: usize },
}

/// The rows of a byte table as sequences.
pub open spec fn rows(data: Seq<Vec<u8>>) -> Seq<Seq<u8>> {
    Seq::new(data.len(), |i: int| data[i]@)
}

impl View for Instruction {
    type V = InstructionView;

    open spec fn view(&self) -> InstructionView {
        match *self {
            Instruction::Regular { op, format } => InstructionView::Regular { op, format },
            Instruction::SwitchPayload { kv, code_units } => InstructionView::SwitchPayload {
                kv: kv@,
                code_units,
            },
            Instruction::FillArrayPayload {
                element_width,
                data,
                code_units,
            } => InstructionView::FillArrayPayload { element_width, data: rows(data@), code_units },
        }
    }
}

impl InstructionView {
    /// Number of code units the item occupies in the stream.
    pub open spec fn units(self) -> nat {
        match self {
            InstructionView::Regular { op, format } => format.kind().units(),
            InstructionView::SwitchPayload { kv, code_units } => code_units as nat,
            InstructionView::FillArrayPayload { element_width, data, code_units } => code_units as nat,
        }
    }
}

/// The five argument registers of the layouts 35c and 45cc, C first and G
/// last: G is the low nibble of the immediate byte, and the code unit `w`
/// holds F and E in its less significant byte and D and C in its more
/// significant byte, each pair high nibble first.
pub open spec fn register_list(imm: u8, w: u16) -> [u8; 5] {
    [
        low_nibble(high_byte(w)),
        high_nibble(high_byte(w)),
        low_nibble(low_byte(w)),
        high_nibble(low_byte(w)),
        low_nibble(imm),
    ]
}

/// The operands of an instruction in the layout `kind`. `imm` is the more
/// significant byte of the instruction's first code unit and `w` holds the
/// code units that follow the first. In the layouts with two nibbles in
/// `imm`, A is the high nibble and B the low one.
pub open spec fn operands(kind: FormatKind, imm: u8, w: Seq<u16>) -> Format {
    match kind {
        FormatKind::F10x => Format::F10x,
        FormatKind::F12x => Format::F12x(F12x {
            va: high_nibble(imm),
            vb: low_nibble(imm),
        }),
        FormatKind::F11n => Format::F11n(F11n {
            va: high_nibble(imm),
            literal: low_nibble(imm) as i8,
        }),
        FormatKind::F11x => Format::F11x(F11x {
            va: imm,
        }),
        FormatKind::F10t => Format::F10t(F10t {
            offset: signed8(imm),
        }),
        FormatKind::F20t => Format::F20t(F20t {
            offset: signed16(w[0]),
        }),
        FormatKind::F20bc => Format::F20bc(F20bc {
            va: imm,
            idx: w[0],
        }),
        FormatKind::F22x => Format::F22x(F22x {
            va: imm,
            vb: w[0],
        }),
        FormatKind::F21t => Format::F21t(F21t {
            va: imm,
            offset: signed16(w[0]),
        }),
        FormatKind::F21s => Format::F21s(F21s {
            va: imm,
            literal: signed16(w[0]),
        }),
        FormatKind::F21h => Format::F21h(F21h {
            va: imm,
            literal: signed16(w[0]),
        }),
        FormatKind::F21c => Format::F21c(F21c {
            dst: imm,
            idx: w[0],
        }),
        FormatKind::F23x => Format::F23x(F23x {
            va: imm,
            vb: low_byte(w[0]),
            vc: high_byte(w[0]),
        }),
        FormatKind::F22b => Format::F22b(F22b {
            va: imm,
            vb: low_byte(w[0]),
            literal: signed8(high_byte(w[0])),
        }),
        FormatKind::F22t => Format::F22t(F22t {
            va: high_nibble(imm),
            vb: low_nibble(imm),
            offset: signed16(w[0]),
        }),
        FormatKind::F22s => Format::F22s(F22s {
            va: high_nibble(imm),
            vb: low_nibble(imm),
            literal: signed16(w[0]),
        }),
        FormatKind::F22c => Format::F22c(F22c {
            va: high_nibble(imm),
            vb: low_nibble(imm),
            idx: w[0],
        }),
        FormatKind::F22cs => Format::F22cs(F22cs {
            va: high_nibble(imm),
            vb: low_nibble(imm),
            idx: w[0],
        }),
        FormatKind::F30t => Format::F30t(F30t {
            offset: signed32(dword(w[0], w[1])),
        }),
        FormatKind::F32x => Format::F32x(F32x {
            va: w[0],
            vb: w[1],
        }),
        FormatKind::F31i => Format::F31i(F31i {
            va: imm,
            literal: signed32(dword(w[0], w[1])),
        }),
        FormatKind::F31t => Format::F31t(F31t {
            va: imm,
            offset: signed32(dword(w[0], w[1])),
        }),
        FormatKind::F31c => Format::F31c(F31c {
            va: imm,
            idx: dword(w[0], w[1]),
        }),
        FormatKind::F35c => Format::F35c(F35c {
            argc: high_nibble(imm),
            args: register_list(imm, w[1]),
            idx: w[0],
        }),
        FormatKind::F35ms => Format::F35ms(F35ms {
            va: high_nibble(imm),
            args: register_list(imm, w[1]),
            idx: w[0],
        }),
        FormatKind::F35mi => Format::F35mi(F35mi {
            va: high_nibble(imm),
            args: register_list(imm, w[1]),
            idx: w[0],
        }),
        FormatKind::F3rc => Format::F3rc(F3rc {
            argc: imm,
            reg: w[1],
            idx: w[0],
        }),
        FormatKind::F3rms => Format::F3rms(F3rms {
            va: imm,
            reg: w[1],
            idx: w[0],
        }),
        FormatKind::F3rmi => Format::F3rmi(F3rmi {
            va: imm,
            reg: w[1],
            idx: w[0],
        }),
        FormatKind::F45cc => Format::F45cc(F45cc {
            argc: high_nibble(imm),
            vg: low_nibble(imm),
            args: register_list(imm, w[1]),
            meth: w[0],
            proto: w[2],
        }),
        FormatKind::F4rcc => Format::F4rcc(F4rcc {
            argc: imm,
            reg: w[1],
            meth: w[0],
            proto: w[2],
        }),
        FormatKind::F51l => Format::F51l(F51l {
            va: imm,
            literal: signed64(qword(dword(w[0], w[1]), dword(w[2], w[3]))),
        }),
    }
}

/// The operands are in the layout they were read in.
pub proof fn operands_have_their_kind(kind: FormatKind, imm: u8, w: Seq<u16>)
    ensures
        operands(kind, imm, w).kind() == kind,
{
}

/// The key of the case `i` of a packed switch whose first key is
/// `first_key`: their sum, wrapped into 32 bits.
pub open spec fn packed_key(first_key: i32, i: int) -> i32 {
    if first_key + i > i32::MAX {
        (first_key + i - 0x1_0000_0000) as i32
    } else {
        (first_key + i) as i32
    }
}

/// The signed 32-bit value held little-endian in the code units `i` and `i + 1`.
pub open spec fn signed_at(code: Seq<u16>, i: int) -> i32 {
    signed32(dword(code[i], code[i + 1]))
}

/// The cases of the packed-switch payload that starts at `offset` and has
/// `n` cases: the first key follows the size, then come the branch offsets.
pub open spec fn packed_pairs(code: Seq<u16>, offset: int, n: nat) -> Seq<(i32, i32)> {
    Seq::new(
        n,
        |i: int| (packed_key(signed_at(code, offset + 2), i), signed_at(code, offset + 4 + 2 * i)),
    )
}

/// The cases of the sparse-switch payload that starts at `offset` and has
/// `n` cases: the `n` keys follow the size, then come the `n` branch offsets.
pub open spec fn sparse_pairs(code: Seq<u16>, offset: int, n: nat) -> Seq<(i32, i32)> {
    Seq::new(
        n,
        |i: int| (signed_at(code, offset + 2 + 2 * i), signed_at(code, offset + 2 + 2 * n + 2 * i)),
    )
}

/// The byte `k` of the data that starts at the code unit `base`: each code
/// unit gives its less significant byte first.
pub open spec fn payload_byte(code: Seq<u16>, base: int, k: int) -> u8 {
    if k % 2 == 0 {
        low_byte(code[base + k / 2])
    } else {
        high_byte(code[base + k / 2])
    }
}

/// The byte `j` of the element `i`, with elements of `width` bytes laid out
/// one after the other from the code unit `base` on.
pub open spec fn element_byte(code: Seq<u16>, base: int, width: nat, i: int, j: int) -> u8 {
    payload_byte(code, base, i * width + j)
}

/// The elements of the fill-array-data payload that starts at `offset`:
/// `size` elements of `width` bytes each, taken in order from the data that
/// follows the four header units.
pub open spec fn fill_data(code: Seq<u16>, offset: int, width: nat, size: nat) -> Seq<Seq<u8>> {
    Seq::new(size, |i: int| Seq::new(width, |j: int| element_byte(code, offset + 4, width, i, j)))
}

/// A length in code units as a `usize`, held at `usize::MAX` where it is
/// larger than anything a stream can have.
pub open spec fn clipped(total: int) -> usize {
    if total <= usize::MAX {
        total as usize
    } else {
        usize::MAX
    }
}

/// The stream ends inside the payload at `offset`.
pub open spec fn payload_too_short(offset: usize, expected: int, remaining: int) -> InstructionError {
    InstructionError::TooShort {
        offset,
        opcode: Opcode::Nop,
        expected: clipped(expected),
        actual: remaining as usize,
    }
}

/// What the packed-switch payload at `offset` decodes to. Its length is
/// twice its size plus four.
pub open spec fn packed_switch(code: Seq<u16>, offset: usize) -> Result<
    Option<(InstructionView, usize)>,
    InstructionError,
> {
    let remaining = code.len() - offset;
    if remaining < 2 {
        Err(payload_too_short(offset, 4, remaining))
    } else {
        let size = code[offset + 1];
        let total = size * 2 + 4;
        if remaining < total {
            Err(payload_too_short(offset, total, remaining))
        } else {
            Ok(
                Some(
                    (
                        InstructionView::SwitchPayload {
                            kv: entries_map(packed_pairs(code, offset as int, size as nat)),
                            code_units: total as usize,
                        },
                        total as usize,
                    ),
                ),
            )
        }
    }
}

/// What the sparse-switch payload at `offset` decodes to. Its length is
/// four times its size plus two.
pub open spec fn sparse_switch(code: Seq<u16>, offset: usize) -> Result<
    Option<(InstructionView, usize)>,
    InstructionError,
> {
    let remaining = code.len() - offset;
    if remaining < 2 {
        Err(payload_too_short(offset, 2, remaining))
    } else {
        let size = code[offset + 1];
        let total = size * 4 + 2;
        if remaining < total {
            Err(payload_too_short(offset, total, remaining))
        } else {
            Ok(
                Some(
                    (
                        InstructionView::SwitchPayload {
                            kv: entries_map(sparse_pairs(code, offset as int, size as nat)),
                            code_units: total as usize,
                        },
                        total as usize,
                    ),
                ),
            )
        }
    }
}

/// What the fill-array-data payload at `offset` decodes to. With elements
/// of `width` bytes its length is `(size * width + 1) / 2 + 4`; a width of
/// zero is malformed.
pub open spec fn fill_array(code: Seq<u16>, offset: usize) -> Result<
    Option<(InstructionView, usize)>,
    InstructionError,
> {
    let remaining = code.len() - offset;
    if remaining < 4 {
        Err(payload_too_short(offset, 4, remaining))
    } else {
        let width = code[offset + 1];
        let size = dword(code[offset + 2], code[offset + 3]);
        let total = (size * width + 1) / 2 + 4;
        if width == 0 {
            Err(InstructionError::BadPayload(offset))
        } else if remaining < total {
            Err(payload_too_short(offset, total, remaining))
        } else {
            Ok(
                Some(
                    (
                        InstructionView::FillArrayPayload {
                            element_width: width as usize,
                            data: fill_data(code, offset as int, width as nat, size as nat),
                            code_units: total as usize,
                        },
                        total as usize,
                    ),
                ),
            )
        }
    }
}

/// What the code units from `offset` on decode to: nothing at or past the
/// end of the stream, else the instruction or payload that starts at
/// `offset` together with its length in code units, or the reason why there
/// is none.
///
/// The less significant byte of the first code unit is the opcode byte, the
/// more significant one the immediate byte. Opcode byte zero with a nonzero
/// immediate byte marks a payload: 1 a packed switch, 2 a sparse switch, 3
/// fill-array data.
pub open spec fn decode(code: Seq<u16>, offset: usize) -> Result<
    Option<(InstructionView, usize)>,
    InstructionError,
> {
    if offset >= code.len() {
        Ok(None)
    } else {
        let byte = low_byte(code[offset as int]);
        let imm = high_byte(code[offset as int]);
        let remaining = code.len() - offset;
        if byte == 0 && imm == 1 {
            packed_switch(code, offset)
        } else if byte == 0 && imm == 2 {
            sparse_switch(code, offset)
        } else if byte == 0 && imm == 3 {
            fill_array(code, offset)
        } else if byte == 0 && imm != 0 {
            Err(InstructionError::BadPayload(offset))
        } else if Opcode::is_reserved(byte) {
            Err(InstructionError::BadOpcode(offset, byte))
        } else {
            let op = Opcode::from_byte(byte)->Some_0;
            let units = op.kind().units();
            if remaining < units {
                Err(
                    InstructionError::TooShort {
                        offset,
                        opcode: op,
                        expected: units as usize,
                        actual: remaining as usize,
                    },
                )
            } else {
                Ok(
                    Some(
                        (
                            InstructionView::Regular {
                                op,
                                format: operands(
                                    op.kind(),
                                    imm,
                                    code.subrange(offset + 1, offset + units),
                                ),
                            },
                            units as usize,
                        ),
                    ),
                )
            }
        }
    }
}

/// The outcome `r` of a decoding call is what `d` says.
pub open spec fn decoded(
    r: Result<Option<(Instruction, usize)>, InstructionError>,
    d: Result<Option<(InstructionView, usize)>, InstructionError>,
) -> bool {
    match r {
        Ok(None) => d == Ok::<Option<(InstructionView, usize)>, InstructionError>(None),
        Ok(Some((ins, n))) => ins.wf() && d == Ok::<Option<(InstructionView, usize)>, InstructionError>(
            Some((ins@, n)),
        ),
        Err(e) => d == Err::<Option<(InstructionView, usize)>, InstructionError>(e),
    }
}

/// A decoded item is at least one code unit long, never longer than what is
/// left of the stream, and its length is the one its layout or its payload
/// declares.
pub proof fn decoded_length(code: Seq<u16>, offset: usize)
    requires
        code.len() <= usize::MAX,
    ensures
        decode(code, offset) matches Ok(Some((ins, n))) ==> 1 <= n && offset + n <= code.len() && n
            == ins.units(),
{
    if let Ok(Some((ins, n))) = decode(code, offset) {
        let byte = low_byte(code[offset as int]);
        if !(byte == 0 && high_byte(code[offset as int]) != 0) {
            let op = Opcode::from_byte(byte)->Some_0;
            operands_have_their_kind(
                op.kind(),
                high_byte(code[offset as int]),
                code.subrange(offset + 1, offset + op.kind().units()),
            );
        }
    }
}

/// Decoding reads nothing but the code units it consumes: the span of a
/// decoded item, taken out of the stream and decoded on its own, gives the
/// same item again.
pub proof fn decoding_is_local(code: Seq<u16>, offset: usize)
    requires
        code.len() <= usize::MAX,
    ensures
        decode(code, offset) matches Ok(Some((ins, n))) ==> decode(
            code.subrange(offset as int, offset + n),
            0,
        ) == Ok::<Option<(InstructionView, usize)>, InstructionError>(Some((ins, n))),
{
    if let Ok(Some((ins, n))) = decode(code, offset) {
        decoded_length(code, offset);
        let span = code.subrange(offset as int, offset + n);
        let byte = low_byte(code[offset as int]);
        let imm = high_byte(code[offset as int]);
        if byte == 0 && imm == 1 {
            let size = code[offset + 1];
            assert(packed_pairs(span, 0, size as nat) =~= packed_pairs(
                code,
                offset as int,
                size as nat,
            ));
        } else if byte == 0 && imm == 2 {
            let size = code[offset + 1];
            assert(sparse_pairs(span, 0, size as nat) =~= sparse_pairs(
                code,
                offset as int,
                size as nat,
            ));
        } else if byte == 0 && imm == 3 {
            let width = code[offset + 1];
            let size = dword(code[offset + 2], code[offset + 3]);
            assert forall|i: int, j: int| 0 <= i < size && 0 <= j < width implies #[trigger] element_byte(
                span,
                4,
                width as nat,
                i,
                j,
            ) == element_byte(code, offset + 4, width as nat, i, j) by {
                element_byte_in_range(i, j, width as int, size as int);
            }
            assert(fill_data(span, 0, width as nat, size as nat) =~~= fill_data(
                code,
                offset as int,
                width as nat,
                size as nat,
            ));
        }
    }
}

/// The byte `j` of the element `i` lies among the `size * width` bytes of
/// the elements.
pub proof fn element_byte_in_range(i: int, j: int, width: int, size: int)
    requires
        0 <= i < size,
        0 <= j < width,
    ensures
        0 <= i * width + j < size * width,
        (i * width + j) / 2 < (size * width + 1) / 2,
{
    assert(i * width + j < size * width) by (nonlinear_arith)
        requires
            0 <= i < size,
            0 <= j < width,
    ;
    assert(0 <= i * width + j) by (nonlinear_arith)
        requires
            0 <= i,
            0 <= j,
            0 <= width,
    ;
}

impl Instruction {
    /// The table of a switch payload is in ascending order of its keys.
    pub open spec fn wf(&self) -> bool {
        match self {
            Instruction::SwitchPayload { kv, .. } => kv.wf(),
            _ => true,
        }
    }

    /// Decodes the instruction or payload that starts at `offset`. At or
    /// past the end of the stream there is none. The second component of the
    /// result is the length in code units, by which the caller advances.
    pub fn try_from_code(code: &[u16], offset: usize) -> (r: Result<
        Option<(Instruction, usize)>,
        InstructionError,
    >)
        ensures
            decoded(r, decode(code@, offset)),
            r matches Ok(Some((ins, n))) ==> 1 <= n && offset + n <= code@.len() && n == ins@.units(),
    {
        let _ = code.len();
        proof {
            decoded_length(code@, offset);
        }
        if offset >= code.len() {
            return Ok(None);
        }
        let (byte, imm) = word_to_bytes(code[offset]);
        if byte == 0 && imm != 0 {
            return Self::read_payload(code, offset, imm);
        }
        let op = match Opcode::from_u8(byte) {
            Some(op) => op,
            None => {
                return Err(InstructionError::BadOpcode(offset, byte));
            },
        };
        let kind = op.format_kind();
        let units = kind.len();
        let remaining = code.len() - offset;
        if remaining < units {
            return Err(
                InstructionError::TooShort { offset, opcode: op, expected: units, actual: remaining },
            );
        }
        let format = read_operands(kind, imm, code, offset);
        Ok(Some((Instruction::Regular { op, format }, units)))
    }

    /// Decodes the payload that starts at `offset`, whose identifier is `ident`.
    fn read_payload(code: &[u16], offset: usize, ident: u8) -> (r: Result<
        Option<(Instruction, usize)>,
        InstructionError,
    >)
        requires
            offset < code@.len(),
            low_byte(code@[offset as int]) == 0,
            high_byte(code@[offset as int]) == ident,
            ident != 0,
        ensures
            decoded(r, decode(code@, offset)),
    {
        if ident == 1 {
            read_packed_switch(code, offset)
        } else if ident == 2 {
            read_sparse_switch(code, offset)
        } else if ident == 3 {
            read_fill_array(code, offset)
        } else {
            Err(InstructionError::BadPayload(offset))
        }
    }
}

/// Reads the operands of an instruction in the layout `kind` whose first
/// code unit is at `offset`.
fn read_operands(kind: FormatKind, imm: u8, code: &[u16], offset: usize) -> (r: Format)
    requires
        offset + kind.units() <= code@.len(),
    ensures
        r == operands(kind, imm, code@.subrange(offset + 1, offset + kind.units())),
{
    let _ = code.len();
    match kind {
        FormatKind::F10x => Format::F10x,
        FormatKind::F12x => Format::F12x(F12x {
            va: byte_to_nibbles(imm).0,
            vb: byte_to_nibbles(imm).1,
        }),
        FormatKind::F11n => Format::F11n(F11n {
            va: byte_to_nibbles(imm).0,
            literal: byte_to_nibbles(imm).1 as i8,
        }),
        FormatKind::F11x => Format::F11x(F11x {
            va: imm,
        }),
        FormatKind::F10t => Format::F10t(F10t {
            offset: to_signed8(imm),
        }),
        FormatKind::F20t => Format::F20t(F20t {
            offset: to_signed16(code[offset + 1]),
        }),
        FormatKind::F20bc => Format::F20bc(F20bc {
            va: imm,
            idx: code[offset + 1],
        }),
        FormatKind::F22x => Format::F22x(F22x {
            va: imm,
            vb: code[offset + 1],
        }),
        FormatKind::F21t => Format::F21t(F21t {
            va: imm,
            offset: to_signed16(code[offset + 1]),
        }),
        FormatKind::F21s => Format::F21s(F21s {
            va: imm,
            literal: to_signed16(code[offset + 1]),
        }),
        FormatKind::F21h => Format::F21h(F21h {
            va: imm,
            literal: to_signed16(code[offset + 1]),
        }),
        FormatKind::F21c => Format::F21c(F21c {
            dst: imm,
            idx: code[offset + 1],
        }),
        FormatKind::F23x => Format::F23x(F23x {
            va: imm,
            vb: word_to_bytes(code[offset + 1]).0,
            vc: word_to_bytes(code[offset + 1]).1,
        }),
        FormatKind::F22b => Format::F22b(F22b {
            va: imm,
            vb: word_to_bytes(code[offset + 1]).0,
            literal: to_signed8(word_to_bytes(code[offset + 1]).1),
        }),
        FormatKind::F22t => Format::F22t(F22t {
            va: byte_to_nibbles(imm).0,
            vb: byte_to_nibbles(imm).1,
            offset: to_signed16(code[offset + 1]),
        }),
        FormatKind::F22s => Format::F22s(F22s {
            va: byte_to_nibbles(imm).0,
            vb: byte_to_nibbles(imm).1,
            literal: to_signed16(code[offset + 1]),
        }),
        FormatKind::F22c => Format::F22c(F22c {
            va: byte_to_nibbles(imm).0,
            vb: byte_to_nibbles(imm).1,
            idx: code[offset + 1],
        }),
        FormatKind::F22cs => Format::F22cs(F22cs {
            va: byte_to_nibbles(imm).0,
            vb: byte_to_nibbles(imm).1,
            idx: code[offset + 1],
        }),
        FormatKind::F30t => Format::F30t(F30t {
            offset: to_signed32(join_words(code[offset + 1], code[offset + 2])),
        }),
        FormatKind::F32x => Format::F32x(F32x {
            va: code[offset + 1],
            vb: code[offset + 2],
        }),
        FormatKind::F31i => Format::F31i(F31i {
            va: imm,
            literal: to_signed32(join_words(code[offset + 1], code[offset + 2])),
        }),
        FormatKind::F31t => Format::F31t(F31t {
            va: imm,
            offset: to_signed32(join_words(code[offset + 1], code[offset + 2])),
        }),
        FormatKind::F31c => Format::F31c(F31c {
            va: imm,
            idx: join_words(code[offset + 1], code[offset + 2]),
        }),
        FormatKind::F35c => Format::F35c(F35c {
            argc: byte_to_nibbles(imm).0,
            args: read_register_list(imm, code[offset + 2]),
            idx: code[offset + 1],
        }),
        FormatKind::F35ms => Format::F35ms(F35ms {
            va: byte_to_nibbles(imm).0,
            args: read_register_list(imm, code[offset + 2]),
            idx: code[offset + 1],
        }),
        FormatKind::F35mi => Format::F35mi(F35mi {
            va: byte_to_nibbles(imm).0,
            args: read_register_list(imm, code[offset + 2]),
            idx: code[offset + 1],
        }),
        FormatKind::F3rc => Format::F3rc(F3rc {
            argc: imm,
            reg: code[offset + 2],
            idx: code[offset + 1],
        }),
        FormatKind::F3rms => Format::F3rms(F3rms {
            va: imm,
            reg: code[offset + 2],
            idx: code[offset + 1],
        }),
        FormatKind::F3rmi => Format::F3rmi(F3rmi {
            va: imm,
            reg: code[offset + 2],
            idx: code[offset + 1],
        }),
        FormatKind::F45cc => Format::F45cc(F45cc {
            argc: byte_to_nibbles(imm).0,
            vg: byte_to_nibbles(imm).1,
            args: read_register_list(imm, code[offset + 2]),
            meth: code[offset + 1],
            proto: code[offset + 3],
        }),
        FormatKind::F4rcc => Format::F4rcc(F4rcc {
            argc: imm,
            reg: code[offset + 2],
            meth: code[offset + 1],
            proto: code[offset + 3],
        }),
        FormatKind::F51l => Format::F51l(F51l {
            va: imm,
            literal: to_signed64(
                join_dwords(
                    join_words(code[offset + 1], code[offset + 2]),
                    join_words(code[offset + 3], code[offset + 4]),
                ),
            ),
        }),
    }
}

/// Reads the five argument registers of the layouts 35c and 45cc.
fn read_register_list(imm: u8, w: u16) -> (r: [u8; 5])
    ensures
        r == register_list(imm, w),
{
    let (_, vg) = byte_to_nibbles(imm);
    let (vf, ve, vd, vc) = word_to_nibbles(w);
    [vc, vd, ve, vf, vg]
}

/// Reads the signed 32-bit value held in the code units `i` and `i + 1`.
fn read_signed(code: &[u16], i: usize) -> (r: i32)
    requires
        i + 1 < code@.len(),
    ensures
        r == signed_at(code@, i as int),
{
    to_signed32(join_words(code[i], code[i + 1]))
}

/// The key of the case `i` of a packed switch.
fn wrapped_key(first_key: i32, i: u16) -> (r: i32)
    ensures
        r == packed_key(first_key, i as int),
{
    let sum: i64 = first_key as i64 + i as i64;
    if sum > i32::MAX as i64 {
        (sum - 0x1_0000_0000) as i32
    } else {
        sum as i32
    }
}

/// The map of the first `i + 1` entries is that of the first `i` with the
/// entry `i` inserted.
proof fn entries_map_step(s: Seq<(i32, i32)>, i: int)
    requires
        0 <= i < s.len(),
    ensures
        entries_map(s.take(i + 1)) == entries_map(s.take(i)).insert(s[i].0, s[i].1),
{
    assert(s.take(i + 1).drop_last() =~= s.take(i));
}

/// Reads the packed-switch payload that starts at `offset`.
fn read_packed_switch(code: &[u16], offset: usize) -> (r: Result<
    Option<(Instruction, usize)>,
    InstructionError,
>)
    requires
        offset < code@.len(),
    ensures
        decoded(r, packed_switch(code@, offset)),
{
    let remaining = code.len() - offset;
    if remaining < 2 {
        return Err(
            InstructionError::TooShort { offset, opcode: Opcode::Nop, expected: 4, actual: remaining },
        );
    }
    let size = code[offset + 1];
    let total: usize = size as usize * 2 + 4;
    if remaining < total {
        return Err(
            InstructionError::TooShort {
                offset,
                opcode: Opcode::Nop,
                expected: total,
                actual: remaining,
            },
        );
    }
    let first_key = read_signed(code, offset + 2);
    let ghost pairs = packed_pairs(code@, offset as int, size as nat);
    let mut kv = SwitchTable::new();
    let mut i: u16 = 0;
    while i < size
        invariant
            i <= size,
            offset + size * 2 + 4 <= code@.len(),
            code@.len() <= usize::MAX,
            first_key == signed_at(code@, offset + 2),
            pairs == packed_pairs(code@, offset as int, size as nat),
            kv.wf(),
            kv@ == entries_map(pairs.take(i as int)),
        decreases size - i,
    {
        let key = wrapped_key(first_key, i);
        let target = read_signed(code, offset + 4 + 2 * (i as usize));
        kv.insert(key, target);
        proof {
            entries_map_step(pairs, i as int);
        }
        i += 1;
    }
    assert(pairs.take(size as int) =~= pairs);
    Ok(Some((Instruction::SwitchPayload { kv, code_units: total }, total)))
}

/// Reads the sparse-switch payload that starts at `offset`.
fn read_sparse_switch(code: &[u16], offset: usize) -> (r: Result<
    Option<(Instruction, usize)>,
    InstructionError,
>)
    requires
        offset < code@.len(),
    ensures
        decoded(r, sparse_switch(code@, offset)),
{
    let remaining = code.len() - offset;
    if remaining < 2 {
        return Err(
            InstructionError::TooShort { offset, opcode: Opcode::Nop, expected: 2, actual: remaining },
        );
    }
    let size = code[offset + 1];
    let total: usize = size as usize * 4 + 2;
    if remaining < total {
        return Err(
            InstructionError::TooShort {
                offset,
                opcode: Opcode::Nop,
                expected: total,
                actual: remaining,
            },
        );
    }
    let ghost pairs = sparse_pairs(code@, offset as int, size as nat);
    let mut kv = SwitchTable::new();
    let mut i: u16 = 0;
    while i < size
        invariant
            i <= size,
            offset + size * 4 + 2 <= code@.len(),
            code@.len() <= usize::MAX,
            pairs == sparse_pairs(code@, offset as int, size as nat),
            kv.wf(),
            kv@ == entries_map(pairs.take(i as int)),
        decreases size - i,
    {
        let key = read_signed(code, offset + 2 + 2 * (i as usize));
        let target = read_signed(code, offset + 2 + 2 * (size as usize) + 2 * (i as usize));
        kv.insert(key, target);
        proof {
            entries_map_step(pairs, i as int);
        }
        i += 1;
    }
    assert(pairs.take(size as int) =~= pairs);
    Ok(Some((Instruction::SwitchPayload { kv, code_units: total }, total)))
}

/// Reads the byte `k` of the data that starts at the code unit `base`.
fn read_payload_byte(code: &[u16], base: usize, k: u64) -> (r: u8)
    requires
        base + k / 2 < code@.len(),
    ensures
        r == payload_byte(code@, base as int, k as int),
{
    let _ = code.len();
    let (low, high) = word_to_bytes(code[base + (k / 2) as usize]);
    if k % 2 == 0 {
        low
    } else {
        high
    }
}

/// Reads the fill-array-data payload that starts at `offset`.
fn read_fill_array(code: &[u16], offset: usize) -> (r: Result<
    Option<(Instruction, usize)>,
    InstructionError,
>)
    requires
        offset < code@.len(),
    ensures
        decoded(r, fill_array(code@, offset)),
{
    let remaining = code.len() - offset;
    if remaining < 4 {
        return Err(
            InstructionError::TooShort { offset, opcode: Opcode::Nop, expected: 4, actual: remaining },
        );
    }
    let width = code[offset + 1];
    let size = join_words(code[offset + 2], code[offset + 3]);
    if width == 0 {
        return Err(InstructionError::BadPayload(offset));
    }
    assert(size * width <= 0xFFFF_FFFF * 0xFFFF) by (nonlinear_arith)
        requires
            0 <= size <= 0xFFFF_FFFF,
            0 <= width <= 0xFFFF,
    ;
    let bytes: u64 = size as u64 * width as u64;
    let total: u64 = (bytes + 1) / 2 + 4;
    if total > remaining as u64 {
        let expected = if total > usize::MAX as u64 {
            usize::MAX
        } else {
            total as usize
        };
        return Err(
            InstructionError::TooShort { offset, opcode: Opcode::Nop, expected, actual: remaining },
        );
    }
    let mut data: Vec<Vec<u8>> = Vec::new();
    let mut i: u32 = 0;
    while i < size
        invariant
            i <= size,
            width > 0,
            bytes == size * width,
            offset + (bytes + 1) / 2 + 4 <= code@.len(),
            code@.len() <= usize::MAX,
            data@.len() == i,
            forall|x: int|
                0 <= x < i ==> (#[trigger] data@[x])@ == Seq::new(
                    width as nat,
                    |j: int| element_byte(code@, offset + 4, width as nat, x, j),
                ),
        decreases size - i,
    {
        let mut element: Vec<u8> = Vec::new();
        let mut j: u16 = 0;
        while j < width
            invariant
                i < size,
                j <= width,
                bytes == size * width,
                offset + (bytes + 1) / 2 + 4 <= code@.len(),
            code@.len() <= usize::MAX,
                element@.len() == j,
                forall|y: int|
                    0 <= y < j ==> #[trigger] element@[y] == element_byte(
                        code@,
                        offset + 4,
                        width as nat,
                        i as int,
                        y,
                    ),
            decreases width - j,
        {
            proof {
                element_byte_in_range(i as int, j as int, width as int, size as int);
            }
            let k: u64 = i as u64 * width as u64 + j as u64;
            let b = read_payload_byte(code, offset + 4, k);
            element.push(b);
            j += 1;
        }
        assert(element@ =~= Seq::new(
            width as nat,
            |j: int| element_byte(code@, offset + 4, width as nat, i as int, j),
        ));
        data.push(element);
        i += 1;
    }
    assert(rows(data@) =~= fill_data(code@, offset as int, width as nat, size as nat));
    let total = total as usize;
    Ok(
        Some(
            (
                Instruction::FillArrayPayload {
                    element_width: width as usize,
                    data,
                    code_units: total,
                },
                total,
            ),
        ),
    )
}

} // verus!
