//! Big-endian multi-byte encodings used in frame payloads, and their
//! two's-complement signed readings.

use vstd::prelude::*;

verus! {

/// Value of two big-endian bytes.
pub open spec fn be16(hi: u8, lo: u8) -> int {
    hi * 0x100 + lo
}

/// Value of four big-endian bytes.
pub open spec fn be32(b0: u8, b1: u8, b2: u8, b3: u8) -> int {
    b0 * 0x100_0000 + b1 * 0x1_0000 + b2 * 0x100 + b3
}

/// Two's-complement reading of a 16-bit value.
pub open spec fn signed16(v: int) -> int
    recommends
        0 <= v < 0x1_0000,
{
    if v < 0x8000 {
        v
    } else {
        v - 0x1_0000
    }
}

/// Two's-complement reading of a 32-bit value.
pub open spec fn signed32(v: int) -> int
    recommends
        0 <= v < 0x1_0000_0000,
{
    if v < 0x8000_0000 {
        v
    } else {
        v - 0x1_0000_0000
    }
}

/// High byte of a big-endian 16-bit value.
pub open spec fn u16_hi(v: u16) -> u8 {
    (v / 0x100) as u8
}

/// Low byte of a big-endian 16-bit value.
pub open spec fn u16_lo(v: u16) -> u8 {
    (v % 0x100) as u8
}

/// Most significant byte of a big-endian 32-bit value.
pub open spec fn u32_byte0(v: u32) -> u8 {
    (v / 0x100_0000) as u8
}

/// Second byte of a big-endian 32-bit value.
pub open spec fn u32_byte1(v: u32) -> u8 {
    ((v / 0x1_0000) % 0x100) as u8
}

/// Third byte of a big-endian 32-bit value.
pub open spec fn u32_byte2(v: u32) -> u8 {
    ((v / 0x100) % 0x100) as u8
}

/// Least significant byte of a big-endian 32-bit value.
pub open spec fn u32_byte3(v: u32) -> u8 {
    (v % 0x100) as u8
}

/// Unsigned 32-bit pattern that encodes a signed value in two's complement.
pub open spec fn unsigned32(v: i32) -> u32 {
    if v >= 0 {
        v as u32
    } else {
        (v + 0x1_0000_0000) as u32
    }
}

/// Splits a 16-bit value into its big-endian bytes.
pub fn u16_to_be(v: u16) -> (r: (u8, u8))
    ensures
        r.0 == u16_hi(v),
        r.1 == u16_lo(v),
{
    ((v / 0x100) as u8, (v % 0x100) as u8)
}

/// Splits a 32-bit value into its big-endian bytes.
pub fn u32_to_be(v: u32) -> (r: (u8, u8, u8, u8))
    ensures
        r.0 == u32_byte0(v),
        r.1 == u32_byte1(v),
        r.2 == u32_byte2(v),
        r.3 == u32_byte3(v),
{
    (
        (v / 0x100_0000) as u8,
        ((v / 0x1_0000) % 0x100) as u8,
        ((v / 0x100) % 0x100) as u8,
        (v % 0x100) as u8,
    )
}

/// Reads two big-endian bytes as an unsigned 16-bit value.
pub fn be16_value(hi: u8, lo: u8) -> (r: u16)
    ensures
        r == be16(hi, lo),
{
    (hi as u16) * 0x100 + (lo as u16)
}

/// Reads two big-endian bytes as a signed 16-bit value.
pub fn be16_signed(hi: u8, lo: u8) -> (r: i16)
    ensures
        r == signed16(be16(hi, lo)),
{
    let v = be16_value(hi, lo);
    if v < 0x8000 {
        v as i16
    } else {
        ((v as i32) - 0x1_0000) as i16
    }
}

/// Reads four big-endian bytes as an unsigned 32-bit value.
pub fn be32_value(b0: u8, b1: u8, b2: u8, b3: u8) -> (r: u32)
    ensures
        r == be32(b0, b1, b2, b3),
{
    (b0 as u32) * 0x100_0000 + (b1 as u32) * 0x1_0000 + (b2 as u32) * 0x100 + (b3 as u32)
}

/// Reads four big-endian bytes as a signed 32-bit value.
pub fn be32_signed(b0: u8, b1: u8, b2: u8, b3: u8) -> (r: i32)
    ensures
        r == signed32(be32(b0, b1, b2, b3)),
{
    let v = be32_value(b0, b1, b2, b3);
    if v < 0x8000_0000 {
        v as i32
    } else {
        ((v as i64) - 0x1_0000_0000i64) as i32
    }
}

/// Splitting a 16-bit value into big-endian bytes and reading them back is
/// the identity.
pub proof fn lemma_be16_roundtrip(v: u16)
    ensures
        be16(u16_hi(v), u16_lo(v)) == v,
{
}

/// Splitting a 32-bit value into big-endian bytes and reading them back is
/// the identity.
pub proof fn lemma_be32_roundtrip(v: u32)
    ensures
        be32(u32_byte0(v), u32_byte1(v), u32_byte2(v), u32_byte3(v)) == v,
{
}

/// Reading a two's-complement pattern back as signed recovers the value.
pub proof fn lemma_signed32_roundtrip(v: i32)
    ensures
        signed32(unsigned32(v) as int) == v,
{
}

} // verus!
