//! The code units of an instruction from its operands: the reverse of
//! decoding, for stating that decoding loses nothing it shows.

use vstd::prelude::*;
use super::bits::{
    dword, high_byte, high_nibble, low_byte, low_nibble, qword, signed16, signed32, signed64,
    signed8, unsigned32, unsigned64, unsigned8,
};
use super::decode::{decode, operands, InstructionView};
use super::error::InstructionError;
use super::format::Format;
use super::opcode::{FormatKind, Opcode};

verus! {

/// The signed 16-bit value read as an unsigned number of the same bits.
pub open spec fn unsigned16(x: i16) -> u16 {
    if x < 0 {
        (x + 0x1_0000) as u16
    } else {
        x as u16
    }
}

/// The byte with the high nibble `high` and the low nibble `low`.
pub open spec fn join_nibbles(high: u8, low: u8) -> u8 {
    ((high % 16) * 16 + low % 16) as u8
}

/// The code unit with the less significant byte `low` and the more
/// significant byte `high`.
pub open spec fn join_bytes(low: u8, high: u8) -> u16 {
    (high * 256 + low) as u16
}

/// The less significant code unit of a 32-bit value.
pub open spec fn low_half(x: u32) -> u16 {
    (x % 0x1_0000) as u16
}

/// The more significant code unit of a 32-bit value.
pub open spec fn high_half(x: u32) -> u16 {
    (x / 0x1_0000) as u16
}

/// The less significant half of a 64-bit value.
pub open spec fn low_word(x: u64) -> u32 {
    (x % 0x1_0000_0000) as u32
}

/// The more significant half of a 64-bit value.
pub open spec fn high_word(x: u64) -> u32 {
    (x / 0x1_0000_0000) as u32
}

/// The code unit that holds the argument registers C to F of an invoke.
pub open spec fn register_word(args: [u8; 5]) -> u16 {
    join_bytes(join_nibbles(args[3], args[2]), join_nibbles(args[1], args[0]))
}

/// The immediate byte of an instruction with the operands `format`.
pub open spec fn immediate_of(format: Format) -> u8 {
    match format {
        Format::F10x => 0,
        Format::F12x(f) => join_nibbles(f.va, f.vb),
        Format::F11n(f) => join_nibbles(f.va, f.literal as u8),
        Format::F11x(f) => f.va,
        Format::F10t(f) => unsigned8(f.offset),
        Format::F20t(f) => 0u8,
        Format::F20bc(f) => f.va,
        Format::F22x(f) => f.va,
        Format::F21t(f) => f.va,
        Format::F21s(f) => f.va,
        Format::F21h(f) => f.va,
        Format::F21c(f) => f.dst,
        Format::F23x(f) => f.va,
        Format::F22b(f) => f.va,
        Format::F22t(f) => join_nibbles(f.va, f.vb),
        Format::F22s(f) => join_nibbles(f.va, f.vb),
        Format::F22c(f) => join_nibbles(f.va, f.vb),
        Format::F22cs(f) => join_nibbles(f.va, f.vb),
        Format::F30t(f) => 0u8,
        Format::F32x(f) => 0u8,
        Format::F31i(f) => f.va,
        Format::F31t(f) => f.va,
        Format::F31c(f) => f.va,
        Format::F35c(f) => join_nibbles(f.argc, f.args[4]),
        Format::F35ms(f) => join_nibbles(f.va, f.args[4]),
        Format::F35mi(f) => join_nibbles(f.va, f.args[4]),
        Format::F3rc(f) => f.argc,
        Format::F3rms(f) => f.va,
        Format::F3rmi(f) => f.va,
        Format::F45cc(f) => join_nibbles(f.argc, f.args[4]),
        Format::F4rcc(f) => f.argc,
        Format::F51l(f) => f.va,
    }
}

/// The code units that follow the first of an instruction with the
/// operands `format`.
pub open spec fn following_units(format: Format) -> Seq<u16> {
    match format {
        Format::F10x => seq![],
        Format::F12x(f) => seq![],
        Format::F11n(f) => seq![],
        Format::F11x(f) => seq![],
        Format::F10t(f) => seq![],
        Format::F20t(f) => seq![unsigned16(f.offset)],
        Format::F20bc(f) => seq![f.idx],
        Format::F22x(f) => seq![f.vb],
        Format::F21t(f) => seq![unsigned16(f.offset)],
        Format::F21s(f) => seq![unsigned16(f.literal)],
        Format::F21h(f) => seq![unsigned16(f.literal)],
        Format::F21c(f) => seq![f.idx],
        Format::F23x(f) => seq![join_bytes(f.vb, f.vc)],
        Format::F22b(f) => seq![join_bytes(f.vb, unsigned8(f.literal))],
        Format::F22t(f) => seq![unsigned16(f.offset)],
        Format::F22s(f) => seq![unsigned16(f.literal)],
        Format::F22c(f) => seq![f.idx],
        Format::F22cs(f) => seq![f.idx],
        Format::F30t(f) => seq![low_half(unsigned32(f.offset)), high_half(unsigned32(f.offset))],
        Format::F32x(f) => seq![f.va, f.vb],
        Format::F31i(f) => seq![low_half(unsigned32(f.literal)), high_half(unsigned32(f.literal))],
        Format::F31t(f) => seq![low_half(unsigned32(f.offset)), high_half(unsigned32(f.offset))],
        Format::F31c(f) => seq![low_half(f.idx), high_half(f.idx)],
        Format::F35c(f) => seq![f.idx, register_word(f.args)],
        Format::F35ms(f) => seq![f.idx, register_word(f.args)],
        Format::F35mi(f) => seq![f.idx, register_word(f.args)],
        Format::F3rc(f) => seq![f.idx, f.reg],
        Format::F3rms(f) => seq![f.idx, f.reg],
        Format::F3rmi(f) => seq![f.idx, f.reg],
        Format::F45cc(f) => seq![f.meth, register_word(f.args), f.proto],
        Format::F4rcc(f) => seq![f.meth, f.reg, f.proto],
        Format::F51l(f) => seq![
            low_half(low_word(unsigned64(f.literal))),
            high_half(low_word(unsigned64(f.literal))),
            low_half(high_word(unsigned64(f.literal))),
            high_half(high_word(unsigned64(f.literal))),
        ],
    }
}

/// The code units of the instruction `op` with the operands `format`.
pub open spec fn encoded(op: Opcode, format: Format) -> Seq<u16> {
    seq![join_bytes(op.byte(), immediate_of(format))] + following_units(format)
}

/// Operands that were read from code units are read again from the code
/// units they are written to.
pub open spec fn decoded_again(kind: FormatKind, imm: u8, w: Seq<u16>) -> bool {
    let format = operands(kind, imm, w);
    &&& following_units(format).len() == kind.units() - 1
    &&& operands(kind, immediate_of(format), following_units(format)) == format
}

/// The nibbles of a byte give the byte again.
proof fn nibbles_rejoin(b: u8)
    ensures
        join_nibbles(high_nibble(b), low_nibble(b)) == b,
        high_nibble(join_nibbles(high_nibble(b), low_nibble(b))) == high_nibble(b),
{
}

/// A nibble is below sixteen, as a signed number too.
proof fn nibble_is_small(b: u8)
    ensures
        high_nibble(b) < 16,
        low_nibble(b) < 16,
        low_nibble(b) as i8 as u8 == low_nibble(b),
        join_nibbles(high_nibble(b), low_nibble(b) as i8 as u8) == b,
        join_nibbles(0, low_nibble(b)) % 16 == low_nibble(b),
{
}

/// The bytes of a code unit give the code unit again.
proof fn bytes_rejoin(w: u16)
    ensures
        join_bytes(low_byte(w), high_byte(w)) == w,
        join_bytes(low_byte(w), unsigned8(signed8(high_byte(w)))) == w,
{
}

/// A code unit read with a sign and without it again is the same.
proof fn word_rejoins(w: u16)
    ensures
        unsigned16(signed16(w)) == w,
{
}

/// The code units of a 32-bit value give the value again.
proof fn halves_rejoin(first: u16, second: u16)
    ensures
        low_half(dword(first, second)) == first,
        high_half(dword(first, second)) == second,
        unsigned32(signed32(dword(first, second))) == dword(first, second),
{
}

/// The halves of a 64-bit value give the value again.
proof fn words_rejoin(first: u32, second: u32)
    ensures
        low_word(qword(first, second)) == first,
        high_word(qword(first, second)) == second,
        unsigned64(signed64(qword(first, second))) == qword(first, second),
{
}

/// Operands in the layout 10x are read again from what they are written to.
proof fn round_trip_10x(imm: u8, w: Seq<u16>)
    requires
        w.len() == 0,
    ensures
        decoded_again(FormatKind::F10x, imm, w),
{
    let format = operands(FormatKind::F10x, imm, w);
    let again = following_units(format);
    nibbles_rejoin(imm);
    nibble_is_small(imm);
    assert(again.len() == 0);
}

/// Operands in the layout 12x are read again from what they are written to.
proof fn round_trip_12x(imm: u8, w: Seq<u16>)
    requires
        w.len() == 0,
    ensures
        decoded_again(FormatKind::F12x, imm, w),
{
    let format = operands(FormatKind::F12x, imm, w);
    let again = following_units(format);
    nibbles_rejoin(imm);
    nibble_is_small(imm);
    assert(again.len() == 0);
}

/// Operands in the layout 11n are read again from what they are written to.
proof fn round_trip_11n(imm: u8, w: Seq<u16>)
    requires
        w.len() == 0,
    ensures
        decoded_again(FormatKind::F11n, imm, w),
{
    let format = operands(FormatKind::F11n, imm, w);
    let again = following_units(format);
    nibbles_rejoin(imm);
    nibble_is_small(imm);
    assert(again.len() == 0);
}

/// Operands in the layout 11x are read again from what they are written to.
proof fn round_trip_11x(imm: u8, w: Seq<u16>)
    requires
        w.len() == 0,
    ensures
        decoded_again(FormatKind::F11x, imm, w),
{
    let format = operands(FormatKind::F11x, imm, w);
    let again = following_units(format);
    nibbles_rejoin(imm);
    nibble_is_small(imm);
    assert(again.len() == 0);
}

/// Operands in the layout 10t are read again from what they are written to.
proof fn round_trip_10t(imm: u8, w: Seq<u16>)
    requires
        w.len() == 0,
    ensures
        decoded_again(FormatKind::F10t, imm, w),
{
    let format = operands(FormatKind::F10t, imm, w);
    let again = following_units(format);
    nibbles_rejoin(imm);
    nibble_is_small(imm);
    assert(again.len() == 0);
}

/// Operands in the layout 20t are read again from what they are written to.
proof fn round_trip_20t(imm: u8, w: Seq<u16>)
    requires
        w.len() == 1,
    ensures
        decoded_again(FormatKind::F20t, imm, w),
{
    let format = operands(FormatKind::F20t, imm, w);
    let again = following_units(format);
    nibbles_rejoin(imm);
    nibble_is_small(imm);
    word_rejoins(w[0]);
    bytes_rejoin(w[0]);
    nibbles_rejoin(low_byte(w[0]));
    nibbles_rejoin(high_byte(w[0]));
    assert(again.len() == 1);
}

/// Operands in the layout 20bc are read again from what they are written to.
proof fn round_trip_20bc(imm: u8, w: Seq<u16>)
    requires
        w.len() == 1,
    ensures
        decoded_again(FormatKind::F20bc, imm, w),
{
    let format = operands(FormatKind::F20bc, imm, w);
    let again = following_units(format);
    nibbles_rejoin(imm);
    nibble_is_small(imm);
    word_rejoins(w[0]);
    bytes_rejoin(w[0]);
    nibbles_rejoin(low_byte(w[0]));
    nibbles_rejoin(high_byte(w[0]));
    assert(again.len() == 1);
}

/// Operands in the layout 22x are read again from what they are written to.
proof fn round_trip_22x(imm: u8, w: Seq<u16>)
    requires
        w.len() == 1,
    ensures
        decoded_again(FormatKind::F22x, imm, w),
{
    let format = operands(FormatKind::F22x, imm, w);
    let again = following_units(format);
    nibbles_rejoin(imm);
    nibble_is_small(imm);
    word_rejoins(w[0]);
    bytes_rejoin(w[0]);
    nibbles_rejoin(low_byte(w[0]));
    nibbles_rejoin(high_byte(w[0]));
    assert(again.len() == 1);
}

/// Operands in the layout 21t are read again from what they are written to.
proof fn round_trip_21t(imm: u8, w: Seq<u16>)
    requires
        w.len() == 1,
    ensures
        decoded_again(FormatKind::F21t, imm, w),
{
    let format = operands(FormatKind::F21t, imm, w);
    let again = following_units(format);
    nibbles_rejoin(imm);
    nibble_is_small(imm);
    word_rejoins(w[0]);
    bytes_rejoin(w[0]);
    nibbles_rejoin(low_byte(w[0]));
    nibbles_rejoin(high_byte(w[0]));
    assert(again.len() == 1);
}

/// Operands in the layout 21s are read again from what they are written to.
proof fn round_trip_21s(imm: u8, w: Seq<u16>)
    requires
        w.len() == 1,
    ensures
        decoded_again(FormatKind::F21s, imm, w),
{
    let format = operands(FormatKind::F21s, imm, w);
    let again = following_units(format);
    nibbles_rejoin(imm);
    nibble_is_small(imm);
    word_rejoins(w[0]);
    bytes_rejoin(w[0]);
    nibbles_rejoin(low_byte(w[0]));
    nibbles_rejoin(high_byte(w[0]));
    assert(again.len() == 1);
}

/// Operands in the layout 21h are read again from what they are written to.
proof fn round_trip_21h(imm: u8, w: Seq<u16>)
    requires
        w.len() == 1,
    ensures
        decoded_again(FormatKind::F21h, imm, w),
{
    let format = operands(FormatKind::F21h, imm, w);
    let again = following_units(format);
    nibbles_rejoin(imm);
    nibble_is_small(imm);
    word_rejoins(w[0]);
    bytes_rejoin(w[0]);
    nibbles_rejoin(low_byte(w[0]));
    nibbles_rejoin(high_byte(w[0]));
    assert(again.len() == 1);
}

/// Operands in the layout 21c are read again from what they are written to.
proof fn round_trip_21c(imm: u8, w: Seq<u16>)
    requires
        w.len() == 1,
    ensures
        decoded_again(FormatKind::F21c, imm, w),
{
    let format = operands(FormatKind::F21c, imm, w);
    let again = following_units(format);
    nibbles_rejoin(imm);
    nibble_is_small(imm);
    word_rejoins(w[0]);
    bytes_rejoin(w[0]);
    nibbles_rejoin(low_byte(w[0]));
    nibbles_rejoin(high_byte(w[0]));
    assert(again.len() == 1);
}

/// Operands in the layout 23x are read again from what they are written to.
proof fn round_trip_23x(imm: u8, w: Seq<u16>)
    requires
        w.len() == 1,
    ensures
        decoded_again(FormatKind::F23x, imm, w),
{
    let format = operands(FormatKind::F23x, imm, w);
    let again = following_units(format);
    nibbles_rejoin(imm);
    nibble_is_small(imm);
    word_rejoins(w[0]);
    bytes_rejoin(w[0]);
    nibbles_rejoin(low_byte(w[0]));
    nibbles_rejoin(high_byte(w[0]));
    assert(again.len() == 1);
}

/// Operands in the layout 22b are read again from what they are written to.
proof fn round_trip_22b(imm: u8, w: Seq<u16>)
    requires
        w.len() == 1,
    ensures
        decoded_again(FormatKind::F22b, imm, w),
{
    let format = operands(FormatKind::F22b, imm, w);
    let again = following_units(format);
    nibbles_rejoin(imm);
    nibble_is_small(imm);
    word_rejoins(w[0]);
    bytes_rejoin(w[0]);
    nibbles_rejoin(low_byte(w[0]));
    nibbles_rejoin(high_byte(w[0]));
    assert(again.len() == 1);
}

/// Operands in the layout 22t are read again from what they are written to.
proof fn round_trip_22t(imm: u8, w: Seq<u16>)
    requires
        w.len() == 1,
    ensures
        decoded_again(FormatKind::F22t, imm, w),
{
    let format = operands(FormatKind::F22t, imm, w);
    let again = following_units(format);
    nibbles_rejoin(imm);
    nibble_is_small(imm);
    word_rejoins(w[0]);
    bytes_rejoin(w[0]);
    nibbles_rejoin(low_byte(w[0]));
    nibbles_rejoin(high_byte(w[0]));
    assert(again.len() == 1);
}

/// Operands in the layout 22s are read again from what they are written to.
proof fn round_trip_22s(imm: u8, w: Seq<u16>)
    requires
        w.len() == 1,
    ensures
        decoded_again(FormatKind::F22s, imm, w),
{
    let format = operands(FormatKind::F22s, imm, w);
    let again = following_units(format);
    nibbles_rejoin(imm);
    nibble_is_small(imm);
    word_rejoins(w[0]);
    bytes_rejoin(w[0]);
    nibbles_rejoin(low_byte(w[0]));
    nibbles_rejoin(high_byte(w[0]));
    assert(again.len() == 1);
}

/// Operands in the layout 22c are read again from what they are written to.
proof fn round_trip_22c(imm: u8, w: Seq<u16>)
    requires
        w.len() == 1,
    ensures
        decoded_again(FormatKind::F22c, imm, w),
{
    let format = operands(FormatKind::F22c, imm, w);
    let again = following_units(format);
    nibbles_rejoin(imm);
    nibble_is_small(imm);
    word_rejoins(w[0]);
    bytes_rejoin(w[0]);
    nibbles_rejoin(low_byte(w[0]));
    nibbles_rejoin(high_byte(w[0]));
    assert(again.len() == 1);
}

/// Operands in the layout 22cs are read again from what they are written to.
proof fn round_trip_22cs(imm: u8, w: Seq<u16>)
    requires
        w.len() == 1,
    ensures
        decoded_again(FormatKind::F22cs, imm, w),
{
    let format = operands(FormatKind::F22cs, imm, w);
    let again = following_units(format);
    nibbles_rejoin(imm);
    nibble_is_small(imm);
    word_rejoins(w[0]);
    bytes_rejoin(w[0]);
    nibbles_rejoin(low_byte(w[0]));
    nibbles_rejoin(high_byte(w[0]));
    assert(again.len() == 1);
}

/// Operands in the layout 30t are read again from what they are written to.
proof fn round_trip_30t(imm: u8, w: Seq<u16>)
    requires
        w.len() == 2,
    ensures
        decoded_again(FormatKind::F30t, imm, w),
{
    let format = operands(FormatKind::F30t, imm, w);
    let again = following_units(format);
    nibbles_rejoin(imm);
    nibble_is_small(imm);
    word_rejoins(w[0]);
    bytes_rejoin(w[0]);
    nibbles_rejoin(low_byte(w[0]));
    nibbles_rejoin(high_byte(w[0]));
    word_rejoins(w[1]);
    bytes_rejoin(w[1]);
    nibbles_rejoin(low_byte(w[1]));
    nibbles_rejoin(high_byte(w[1]));
    halves_rejoin(w[0], w[1]);
    assert(again.len() == 2);
}

/// Operands in the layout 32x are read again from what they are written to.
proof fn round_trip_32x(imm: u8, w: Seq<u16>)
    requires
        w.len() == 2,
    ensures
        decoded_again(FormatKind::F32x, imm, w),
{
    let format = operands(FormatKind::F32x, imm, w);
    let again = following_units(format);
    nibbles_rejoin(imm);
    nibble_is_small(imm);
    word_rejoins(w[0]);
    bytes_rejoin(w[0]);
    nibbles_rejoin(low_byte(w[0]));
    nibbles_rejoin(high_byte(w[0]));
    word_rejoins(w[1]);
    bytes_rejoin(w[1]);
    nibbles_rejoin(low_byte(w[1]));
    nibbles_rejoin(high_byte(w[1]));
    halves_rejoin(w[0], w[1]);
    assert(again.len() == 2);
}

/// Operands in the layout 31i are read again from what they are written to.
proof fn round_trip_31i(imm: u8, w: Seq<u16>)
    requires
        w.len() == 2,
    ensures
        decoded_again(FormatKind::F31i, imm, w),
{
    let format = operands(FormatKind::F31i, imm, w);
    let again = following_units(format);
    nibbles_rejoin(imm);
    nibble_is_small(imm);
    word_rejoins(w[0]);
    bytes_rejoin(w[0]);
    nibbles_rejoin(low_byte(w[0]));
    nibbles_rejoin(high_byte(w[0]));
    word_rejoins(w[1]);
    bytes_rejoin(w[1]);
    nibbles_rejoin(low_byte(w[1]));
    nibbles_rejoin(high_byte(w[1]));
    halves_rejoin(w[0], w[1]);
    assert(again.len() == 2);
}

/// Operands in the layout 31t are read again from what they are written to.
proof fn round_trip_31t(imm: u8, w: Seq<u16>)
    requires
        w.len() == 2,
    ensures
        decoded_again(FormatKind::F31t, imm, w),
{
    let format = operands(FormatKind::F31t, imm, w);
    let again = following_units(format);
    nibbles_rejoin(imm);
    nibble_is_small(imm);
    word_rejoins(w[0]);
    bytes_rejoin(w[0]);
    nibbles_rejoin(low_byte(w[0]));
    nibbles_rejoin(high_byte(w[0]));
    word_rejoins(w[1]);
    bytes_rejoin(w[1]);
    nibbles_rejoin(low_byte(w[1]));
    nibbles_rejoin(high_byte(w[1]));
    halves_rejoin(w[0], w[1]);
    assert(again.len() == 2);
}

/// Operands in the layout 31c are read again from what they are written to.
proof fn round_trip_31c(imm: u8, w: Seq<u16>)
    requires
        w.len() == 2,
    ensures
        decoded_again(FormatKind::F31c, imm, w),
{
    let format = operands(FormatKind::F31c, imm, w);
    let again = following_units(format);
    nibbles_rejoin(imm);
    nibble_is_small(imm);
    word_rejoins(w[0]);
    bytes_rejoin(w[0]);
    nibbles_rejoin(low_byte(w[0]));
    nibbles_rejoin(high_byte(w[0]));
    word_rejoins(w[1]);
    bytes_rejoin(w[1]);
    nibbles_rejoin(low_byte(w[1]));
    nibbles_rejoin(high_byte(w[1]));
    halves_rejoin(w[0], w[1]);
    assert(again.len() == 2);
}

/// Operands in the layout 35c are read again from what they are written to.
proof fn round_trip_35c(imm: u8, w: Seq<u16>)
    requires
        w.len() == 2,
    ensures
        decoded_again(FormatKind::F35c, imm, w),
{
    let format = operands(FormatKind::F35c, imm, w);
    let again = following_units(format);
    nibbles_rejoin(imm);
    nibble_is_small(imm);
    word_rejoins(w[0]);
    bytes_rejoin(w[0]);
    nibbles_rejoin(low_byte(w[0]));
    nibbles_rejoin(high_byte(w[0]));
    word_rejoins(w[1]);
    bytes_rejoin(w[1]);
    nibbles_rejoin(low_byte(w[1]));
    nibbles_rejoin(high_byte(w[1]));
    halves_rejoin(w[0], w[1]);
    assert(again.len() == 2);
}

/// Operands in the layout 35ms are read again from what they are written to.
proof fn round_trip_35ms(imm: u8, w: Seq<u16>)
    requires
        w.len() == 2,
    ensures
        decoded_again(FormatKind::F35ms, imm, w),
{
    let format = operands(FormatKind::F35ms, imm, w);
    let again = following_units(format);
    nibbles_rejoin(imm);
    nibble_is_small(imm);
    word_rejoins(w[0]);
    bytes_rejoin(w[0]);
    nibbles_rejoin(low_byte(w[0]));
    nibbles_rejoin(high_byte(w[0]));
    word_rejoins(w[1]);
    bytes_rejoin(w[1]);
    nibbles_rejoin(low_byte(w[1]));
    nibbles_rejoin(high_byte(w[1]));
    halves_rejoin(w[0], w[1]);
    assert(again.len() == 2);
}

/// Operands in the layout 35mi are read again from what they are written to.
proof fn round_trip_35mi(imm: u8, w: Seq<u16>)
    requires
        w.len() == 2,
    ensures
        decoded_again(FormatKind::F35mi, imm, w),
{
    let format = operands(FormatKind::F35mi, imm, w);
    let again = following_units(format);
    nibbles_rejoin(imm);
    nibble_is_small(imm);
    word_rejoins(w[0]);
    bytes_rejoin(w[0]);
    nibbles_rejoin(low_byte(w[0]));
    nibbles_rejoin(high_byte(w[0]));
    word_rejoins(w[1]);
    bytes_rejoin(w[1]);
    nibbles_rejoin(low_byte(w[1]));
    nibbles_rejoin(high_byte(w[1]));
    halves_rejoin(w[0], w[1]);
    assert(again.len() == 2);
}

/// Operands in the layout 3rc are read again from what they are written to.
proof fn round_trip_3rc(imm: u8, w: Seq<u16>)
    requires
        w.len() == 2,
    ensures
        decoded_again(FormatKind::F3rc, imm, w),
{
    let format = operands(FormatKind::F3rc, imm, w);
    let again = following_units(format);
    nibbles_rejoin(imm);
    nibble_is_small(imm);
    word_rejoins(w[0]);
    bytes_rejoin(w[0]);
    nibbles_rejoin(low_byte(w[0]));
    nibbles_rejoin(high_byte(w[0]));
    word_rejoins(w[1]);
    bytes_rejoin(w[1]);
    nibbles_rejoin(low_byte(w[1]));
    nibbles_rejoin(high_byte(w[1]));
    halves_rejoin(w[0], w[1]);
    assert(again.len() == 2);
}

/// Operands in the layout 3rms are read again from what they are written to.
proof fn round_trip_3rms(imm: u8, w: Seq<u16>)
    requires
        w.len() == 2,
    ensures
        decoded_again(FormatKind::F3rms, imm, w),
{
    let format = operands(FormatKind::F3rms, imm, w);
    let again = following_units(format);
    nibbles_rejoin(imm);
    nibble_is_small(imm);
    word_rejoins(w[0]);
    bytes_rejoin(w[0]);
    nibbles_rejoin(low_byte(w[0]));
    nibbles_rejoin(high_byte(w[0]));
    word_rejoins(w[1]);
    bytes_rejoin(w[1]);
    nibbles_rejoin(low_byte(w[1]));
    nibbles_rejoin(high_byte(w[1]));
    halves_rejoin(w[0], w[1]);
    assert(again.len() == 2);
}

/// Operands in the layout 3rmi are read again from what they are written to.
proof fn round_trip_3rmi(imm: u8, w: Seq<u16>)
    requires
        w.len() == 2,
    ensures
        decoded_again(FormatKind::F3rmi, imm, w),
{
    let format = operands(FormatKind::F3rmi, imm, w);
    let again = following_units(format);
    nibbles_rejoin(imm);
    nibble_is_small(imm);
    word_rejoins(w[0]);
    bytes_rejoin(w[0]);
    nibbles_rejoin(low_byte(w[0]));
    nibbles_rejoin(high_byte(w[0]));
    word_rejoins(w[1]);
    bytes_rejoin(w[1]);
    nibbles_rejoin(low_byte(w[1]));
    nibbles_rejoin(high_byte(w[1]));
    halves_rejoin(w[0], w[1]);
    assert(again.len() == 2);
}

/// Operands in the layout 45cc are read again from what they are written to.
proof fn round_trip_45cc(imm: u8, w: Seq<u16>)
    requires
        w.len() == 3,
    ensures
        decoded_again(FormatKind::F45cc, imm, w),
{
    let format = operands(FormatKind::F45cc, imm, w);
    let again = following_units(format);
    nibbles_rejoin(imm);
    nibble_is_small(imm);
    word_rejoins(w[0]);
    bytes_rejoin(w[0]);
    nibbles_rejoin(low_byte(w[0]));
    nibbles_rejoin(high_byte(w[0]));
    word_rejoins(w[1]);
    bytes_rejoin(w[1]);
    nibbles_rejoin(low_byte(w[1]));
    nibbles_rejoin(high_byte(w[1]));
    word_rejoins(w[2]);
    bytes_rejoin(w[2]);
    nibbles_rejoin(low_byte(w[2]));
    nibbles_rejoin(high_byte(w[2]));
    halves_rejoin(w[0], w[1]);
    assert(again.len() == 3);
}

/// Operands in the layout 4rcc are read again from what they are written to.
proof fn round_trip_4rcc(imm: u8, w: Seq<u16>)
    requires
        w.len() == 3,
    ensures
        decoded_again(FormatKind::F4rcc, imm, w),
{
    let format = operands(FormatKind::F4rcc, imm, w);
    let again = following_units(format);
    nibbles_rejoin(imm);
    nibble_is_small(imm);
    word_rejoins(w[0]);
    bytes_rejoin(w[0]);
    nibbles_rejoin(low_byte(w[0]));
    nibbles_rejoin(high_byte(w[0]));
    word_rejoins(w[1]);
    bytes_rejoin(w[1]);
    nibbles_rejoin(low_byte(w[1]));
    nibbles_rejoin(high_byte(w[1]));
    word_rejoins(w[2]);
    bytes_rejoin(w[2]);
    nibbles_rejoin(low_byte(w[2]));
    nibbles_rejoin(high_byte(w[2]));
    halves_rejoin(w[0], w[1]);
    assert(again.len() == 3);
}

/// Operands in the layout 51l are read again from what they are written to.
proof fn round_trip_51l(imm: u8, w: Seq<u16>)
    requires
        w.len() == 4,
    ensures
        decoded_again(FormatKind::F51l, imm, w),
{
    let format = operands(FormatKind::F51l, imm, w);
    let again = following_units(format);
    nibbles_rejoin(imm);
    nibble_is_small(imm);
    word_rejoins(w[0]);
    bytes_rejoin(w[0]);
    nibbles_rejoin(low_byte(w[0]));
    nibbles_rejoin(high_byte(w[0]));
    word_rejoins(w[1]);
    bytes_rejoin(w[1]);
    nibbles_rejoin(low_byte(w[1]));
    nibbles_rejoin(high_byte(w[1]));
    word_rejoins(w[2]);
    bytes_rejoin(w[2]);
    nibbles_rejoin(low_byte(w[2]));
    nibbles_rejoin(high_byte(w[2]));
    word_rejoins(w[3]);
    bytes_rejoin(w[3]);
    nibbles_rejoin(low_byte(w[3]));
    nibbles_rejoin(high_byte(w[3]));
    halves_rejoin(w[0], w[1]);
    halves_rejoin(w[2], w[3]);
    words_rejoin(dword(w[0], w[1]), dword(w[2], w[3]));
    assert(again.len() == 4);
}

/// Operands that were read from code units are read again from the code
/// units they are written to, in every layout.
pub proof fn operands_round_trip(kind: FormatKind, imm: u8, w: Seq<u16>)
    requires
        w.len() == kind.units() - 1,
    ensures
        decoded_again(kind, imm, w),
{
    match kind {
        FormatKind::F10x => {
            round_trip_10x(imm, w);
        },
        FormatKind::F12x => {
            round_trip_12x(imm, w);
        },
        FormatKind::F11n => {
            round_trip_11n(imm, w);
        },
        FormatKind::F11x => {
            round_trip_11x(imm, w);
        },
        FormatKind::F10t => {
            round_trip_10t(imm, w);
        },
        FormatKind::F20t => {
            round_trip_20t(imm, w);
        },
        FormatKind::F20bc => {
            round_trip_20bc(imm, w);
        },
        FormatKind::F22x => {
            round_trip_22x(imm, w);
        },
        FormatKind::F21t => {
            round_trip_21t(imm, w);
        },
        FormatKind::F21s => {
            round_trip_21s(imm, w);
        },
        FormatKind::F21h => {
            round_trip_21h(imm, w);
        },
        FormatKind::F21c => {
            round_trip_21c(imm, w);
        },
        FormatKind::F23x => {
            round_trip_23x(imm, w);
        },
        FormatKind::F22b => {
            round_trip_22b(imm, w);
        },
        FormatKind::F22t => {
            round_trip_22t(imm, w);
        },
        FormatKind::F22s => {
            round_trip_22s(imm, w);
        },
        FormatKind::F22c => {
            round_trip_22c(imm, w);
        },
        FormatKind::F22cs => {
            round_trip_22cs(imm, w);
        },
        FormatKind::F30t => {
            round_trip_30t(imm, w);
        },
        FormatKind::F32x => {
            round_trip_32x(imm, w);
        },
        FormatKind::F31i => {
            round_trip_31i(imm, w);
        },
        FormatKind::F31t => {
            round_trip_31t(imm, w);
        },
        FormatKind::F31c => {
            round_trip_31c(imm, w);
        },
        FormatKind::F35c => {
            round_trip_35c(imm, w);
        },
        FormatKind::F35ms => {
            round_trip_35ms(imm, w);
        },
        FormatKind::F35mi => {
            round_trip_35mi(imm, w);
        },
        FormatKind::F3rc => {
            round_trip_3rc(imm, w);
        },
        FormatKind::F3rms => {
            round_trip_3rms(imm, w);
        },
        FormatKind::F3rmi => {
            round_trip_3rmi(imm, w);
        },
        FormatKind::F45cc => {
            round_trip_45cc(imm, w);
        },
        FormatKind::F4rcc => {
            round_trip_4rcc(imm, w);
        },
        FormatKind::F51l => {
            round_trip_51l(imm, w);
        },
    }
}

/// What a regular instruction at the start of a stream decodes to.
proof fn decode_at_start(s: Seq<u16>, op: Opcode, imm: u8)
    requires
        s.len() == op.kind().units(),
        low_byte(s[0]) == op.byte(),
        high_byte(s[0]) == imm,
        op.byte() == 0 ==> imm == 0,
    ensures
        decode(s, 0) == Ok::<Option<(InstructionView, usize)>, InstructionError>(
            Some(
                (
                    InstructionView::Regular {
                        op,
                        format: operands(op.kind(), imm, s.subrange(1, s.len() as int)),
                    },
                    s.len() as usize,
                ),
            ),
        ),
{
    Opcode::from_byte_of_byte(op);
}

/// What a decoded regular instruction was read from.
proof fn decoded_from_units(code: Seq<u16>, offset: usize)
    requires
        code.len() <= usize::MAX,
    ensures
        decode(code, offset) matches Ok(Some((InstructionView::Regular { op, format }, n))) ==> {
            &&& n == op.kind().units()
            &&& offset + n <= code.len()
            &&& format == operands(
                op.kind(),
                high_byte(code[offset as int]),
                code.subrange(offset + 1, offset + n),
            )
            &&& (op.byte() == 0 ==> format == Format::F10x)
        },
{
    if let Ok(Some((InstructionView::Regular { op, format }, n))) = decode(code, offset) {
        let byte = low_byte(code[offset as int]);
        assert(Opcode::from_byte(byte) == Some(op));
        if !Opcode::is_reserved(byte) {
            let found = choose|other: Opcode| other.byte() == byte;
            Opcode::from_byte_of_byte(found);
        }
    }
}

/// Decoding loses nothing that it shows: the code units of a decoded
/// instruction, written anew from its opcode and its operands, decode to
/// the same instruction of the same length.
pub proof fn decoding_round_trip(code: Seq<u16>, offset: usize)
    requires
        code.len() <= usize::MAX,
    ensures
        decode(code, offset) matches Ok(Some((InstructionView::Regular { op, format }, n)))
            ==> decode(encoded(op, format), 0) == Ok::<
            Option<(InstructionView, usize)>,
            InstructionError,
        >(Some((InstructionView::Regular { op, format }, n))),
{
    let first_result = decode(code, offset);
    if let Ok(Some((InstructionView::Regular { op, format }, n))) = first_result {
        decoded_from_units(code, offset);
        let imm = high_byte(code[offset as int]);
        let w = code.subrange(offset + 1, offset + n);
        let kind = op.kind();
        operands_round_trip(kind, imm, w);
        let again = encoded(op, format);
        let imm2 = immediate_of(format);
        let first = join_bytes(op.byte(), imm2);
        assert(again[0] == first);
        first_unit_splits(op.byte(), imm2);
        assert(again.subrange(1, again.len() as int) =~= following_units(format));
        decode_at_start(again, op, imm2);
    }
}

/// The first code unit gives back the opcode byte and the immediate byte.
proof fn first_unit_splits(byte: u8, imm: u8)
    ensures
        low_byte(join_bytes(byte, imm)) == byte,
        high_byte(join_bytes(byte, imm)) == imm,
{
}

} // verus!
