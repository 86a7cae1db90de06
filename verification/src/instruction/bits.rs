//! Splitting code units into bytes and nibbles, and joining them into wider
//! values.

use vstd::prelude::*;

verus! {

/// The less significant byte of a code unit.
pub open spec fn low_byte(word: u16) -> u8 {
    (word % 256) as u8
}

/// The more significant byte of a code unit.
pub open spec fn high_byte(word: u16) -> u8 {
    (word / 256) as u8
}

/// The more significant four bits of a byte.
pub open spec fn high_nibble(byte: u8) -> u8 {
    byte / 16
}

/// The less significant four bits of a byte.
pub open spec fn low_nibble(byte: u8) -> u8 {
    byte % 16
}

/// The byte read as a two's complement number.
pub open spec fn signed8(x: u8) -> i8 {
    if x < 0x80 {
        x as i8
    } else {
        (x - 0x100) as i8
    }
}

/// The code unit read as a two's complement number.
pub open spec fn signed16(x: u16) -> i16 {
    if x < 0x8000 {
        x as i16
    } else {
        (x - 0x1_0000) as i16
    }
}

/// The 32-bit value read as a two's complement number.
pub open spec fn signed32(x: u32) -> i32 {
    if x < 0x8000_0000 {
        x as i32
    } else {
        (x - 0x1_0000_0000) as i32
    }
}

/// The 64-bit value read as a two's complement number.
pub open spec fn signed64(x: u64) -> i64 {
    if x < 0x8000_0000_0000_0000 {
        x as i64
    } else {
        (x - 0x1_0000_0000_0000_0000) as i64
    }
}

/// Two code units joined little-endian: `first` is the less significant half.
pub open spec fn dword(first: u16, second: u16) -> u32 {
    (second * 0x1_0000 + first) as u32
}

/// Two 32-bit values joined little-endian: `first` is the less significant half.
pub open spec fn qword(first: u32, second: u32) -> u64 {
    (second * 0x1_0000_0000 + first) as u64
}

/// Splits a code unit into its less and its more significant byte.
pub fn word_to_bytes(word: u16) -> (r: (u8, u8))
    ensures
        r.0 == low_byte(word),
        r.1 == high_byte(word),
{
    ((word % 256) as u8, (word / 256) as u8)
}

/// Splits a byte into its more and its less significant nibble.
pub fn byte_to_nibbles(byte: u8) -> (r: (u8, u8))
    ensures
        r.0 == high_nibble(byte),
        r.1 == low_nibble(byte),
        r.0 < 16,
        r.1 < 16,
{
    (byte / 16, byte % 16)
}

/// Splits a code unit into four nibbles: those of its less significant byte,
/// high nibble first, then those of its more significant byte.
pub fn word_to_nibbles(word: u16) -> (r: (u8, u8, u8, u8))
    ensures
        r.0 == high_nibble(low_byte(word)),
        r.1 == low_nibble(low_byte(word)),
        r.2 == high_nibble(high_byte(word)),
        r.3 == low_nibble(high_byte(word)),
{
    let (low, high) = word_to_bytes(word);
    (low / 16, low % 16, high / 16, high % 16)
}

/// Reads a byte as a two's complement number.
pub fn to_signed8(x: u8) -> (r: i8)
    ensures
        r == signed8(x),
{
    if x < 0x80 {
        x as i8
    } else {
        (x - 0x80) as i8 + i8::MIN
    }
}

/// Reads a code unit as a two's complement number.
pub fn to_signed16(x: u16) -> (r: i16)
    ensures
        r == signed16(x),
{
    if x < 0x8000 {
        x as i16
    } else {
        (x - 0x8000) as i16 + i16::MIN
    }
}

/// Reads a 32-bit value as a two's complement number.
pub fn to_signed32(x: u32) -> (r: i32)
    ensures
        r == signed32(x),
{
    if x < 0x8000_0000 {
        x as i32
    } else {
        (x - 0x8000_0000) as i32 + i32::MIN
    }
}

/// Reads a 64-bit value as a two's complement number.
pub fn to_signed64(x: u64) -> (r: i64)
    ensures
        r == signed64(x),
{
    if x < 0x8000_0000_0000_0000 {
        x as i64
    } else {
        (x - 0x8000_0000_0000_0000) as i64 + i64::MIN
    }
}

/// Joins two code units little-endian.
pub fn join_words(first: u16, second: u16) -> (r: u32)
    ensures
        r == dword(first, second),
{
    (second as u32) * 0x1_0000 + first as u32
}

/// Joins two 32-bit values little-endian.
pub fn join_dwords(first: u32, second: u32) -> (r: u64)
    ensures
        r == qword(first, second),
{
    (second as u64) * 0x1_0000_0000 + first as u64
}

/// The arithmetic above is the usual masking and shifting.
pub proof fn splitting_is_masking_and_shifting(word: u16, byte: u8, first: u16, second: u16)
    ensures
        low_byte(word) == word & 0xFF,
        high_byte(word) == word >> 8,
        high_nibble(byte) == byte >> 4,
        low_nibble(byte) == byte & 0x0F,
        dword(first, second) == ((second as u32) << 16) | (first as u32),
{
    assert(word % 256 == word & 0xFF) by (bit_vector);
    assert(word / 256 == word >> 8) by (bit_vector);
    assert(byte / 16 == byte >> 4) by (bit_vector);
    assert(byte % 16 == byte & 0x0F) by (bit_vector);
    assert((second as u32) * 0x1_0000 + (first as u32) == ((second as u32) << 16) | (first as u32))
        by (bit_vector);
}

/// The signed byte read as an unsigned number of the same bits.
pub open spec fn unsigned8(x: i8) -> u8 {
    if x < 0 {
        (x + 0x100) as u8
    } else {
        x as u8
    }
}

/// The signed 32-bit value read as an unsigned number of the same bits.
pub open spec fn unsigned32(x: i32) -> u32 {
    if x < 0 {
        (x + 0x1_0000_0000) as u32
    } else {
        x as u32
    }
}

/// The signed 64-bit value read as an unsigned number of the same bits.
pub open spec fn unsigned64(x: i64) -> u64 {
    if x < 0 {
        (x + 0x1_0000_0000_0000_0000) as u64
    } else {
        x as u64
    }
}

/// The signed byte as a 16-bit number of the same value.
pub open spec fn widened8(x: i8) -> i16 {
    x as i16
}

/// Reads a signed byte as an unsigned number.
pub fn to_unsigned8(x: i8) -> (r: u8)
    ensures
        r == unsigned8(x),
        signed8(r) == x,
{
    if x < 0 {
        (x as i16 + 0x100) as u8
    } else {
        x as u8
    }
}

/// Reads a signed 32-bit value as an unsigned number.
pub fn to_unsigned32(x: i32) -> (r: u32)
    ensures
        r == unsigned32(x),
        signed32(r) == x,
{
    if x < 0 {
        (x as i64 + 0x1_0000_0000) as u32
    } else {
        x as u32
    }
}

/// Reads a signed 64-bit value as an unsigned number.
pub fn to_unsigned64(x: i64) -> (r: u64)
    ensures
        r == unsigned64(x),
        signed64(r) == x,
{
    if x < 0 {
        (x as i128 + 0x1_0000_0000_0000_0000) as u64
    } else {
        x as u64
    }
}

/// A signed byte as a 16-bit number.
pub fn widen8(x: i8) -> (r: i16)
    ensures
        r == widened8(x),
        r == x,
{
    x as i16
}

} // verus!
