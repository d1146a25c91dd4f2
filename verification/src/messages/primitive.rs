//! Primitive field types of the protocol and the little-endian byte
//! conversions every message layout is built from.

use vstd::prelude::*;

verus! {

/// Unsigned 8-bit field.
pub type U1 = u8;

/// Unsigned 16-bit little-endian field.
pub type U2 = u16;

/// Unsigned 32-bit little-endian field.
pub type U4 = u32;

/// Signed 8-bit field.
pub type I1 = i8;

/// Signed 16-bit little-endian field.
pub type I2 = i16;

/// Signed 32-bit little-endian field.
pub type I4 = i32;

/// 8-bit bitfield.
pub type X1 = u8;

/// 16-bit bitfield.
pub type X2 = u16;

/// 32-bit bitfield.
pub type X4 = u32;

/// The 16-bit value two little-endian bytes denote.
pub open spec fn le16(b0: u8, b1: u8) -> u16 {
    (b0 + (b1 as int) * 0x100) as u16
}

/// The 32-bit value four little-endian bytes denote.
pub open spec fn le32(b0: u8, b1: u8, b2: u8, b3: u8) -> u32 {
    (b0 + (b1 as int) * 0x100 + (b2 as int) * 0x10000 + (b3 as int) * 0x1000000) as u32
}

/// The signed 16-bit value two little-endian bytes denote, in two's
/// complement.
pub open spec fn sle16(b0: u8, b1: u8) -> i16 {
    if le16(b0, b1) >= 0x8000 {
        (le16(b0, b1) - 0x10000) as i16
    } else {
        le16(b0, b1) as i16
    }
}

/// The signed 32-bit value four little-endian bytes denote, in two's
/// complement.
pub open spec fn sle32(b0: u8, b1: u8, b2: u8, b3: u8) -> i32 {
    if le32(b0, b1, b2, b3) >= 0x8000_0000 {
        (le32(b0, b1, b2, b3) - 0x1_0000_0000) as i32
    } else {
        le32(b0, b1, b2, b3) as i32
    }
}

/// The signed value one byte denotes, in two's complement.
pub open spec fn signed8(b: u8) -> i8 {
    if b >= 0x80 {
        (b - 0x100) as i8
    } else {
        b as i8
    }
}

/// The two little-endian bytes of a 16-bit value.
pub open spec fn le16_bytes(x: u16) -> Seq<u8> {
    seq![(x % 0x100) as u8, ((x / 0x100) % 0x100) as u8]
}

/// The four little-endian bytes of a 32-bit value.
pub open spec fn le32_bytes(x: u32) -> Seq<u8> {
    seq![
        (x % 0x100) as u8,
        ((x / 0x100) % 0x100) as u8,
        ((x / 0x10000) % 0x100) as u8,
        ((x / 0x1000000) % 0x100) as u8,
    ]
}

/// The two's-complement 16-bit representation of a signed value.
pub open spec fn unsigned16(x: i16) -> u16 {
    if x < 0 {
        (x + 0x10000) as u16
    } else {
        x as u16
    }
}

/// The two's-complement 32-bit representation of a signed value.
pub open spec fn unsigned32(x: i32) -> u32 {
    if x < 0 {
        (x + 0x1_0000_0000) as u32
    } else {
        x as u32
    }
}

/// The two's-complement byte of a signed 8-bit value.
pub open spec fn unsigned8(x: i8) -> u8 {
    if x < 0 {
        (x + 0x100) as u8
    } else {
        x as u8
    }
}

/// The two little-endian bytes of a signed 16-bit value.
pub open spec fn sle16_bytes(x: i16) -> Seq<u8> {
    le16_bytes(unsigned16(x))
}

/// The four little-endian bytes of a signed 32-bit value.
pub open spec fn sle32_bytes(x: i32) -> Seq<u8> {
    le32_bytes(unsigned32(x))
}

/// Reading back the two little-endian bytes of a 16-bit value yields
/// the value.
pub proof fn lemma_le16_roundtrip(x: u16)
    ensures
        le16(le16_bytes(x)[0], le16_bytes(x)[1]) == x,
{
    vstd::arithmetic::div_mod::lemma_fundamental_div_mod(x as int, 0x100);
}

/// Reading back the four little-endian bytes of a 32-bit value yields
/// the value.
pub proof fn lemma_le32_roundtrip(x: u32)
    ensures
        le32(le32_bytes(x)[0], le32_bytes(x)[1], le32_bytes(x)[2], le32_bytes(x)[3]) == x,
{
    let xi = x as int;
    vstd::arithmetic::div_mod::lemma_fundamental_div_mod(xi, 0x100);
    vstd::arithmetic::div_mod::lemma_fundamental_div_mod(xi / 0x100, 0x100);
    vstd::arithmetic::div_mod::lemma_fundamental_div_mod(xi / 0x10000, 0x100);
    vstd::arithmetic::div_mod::lemma_div_denominator(xi, 0x100, 0x100);
    vstd::arithmetic::div_mod::lemma_div_denominator(xi, 0x10000, 0x100);
}

/// Reading back the two's-complement bytes of a signed 16-bit value
/// yields the value.
pub proof fn lemma_sle16_roundtrip(x: i16)
    ensures
        sle16(sle16_bytes(x)[0], sle16_bytes(x)[1]) == x,
{
    lemma_le16_roundtrip(unsigned16(x));
}

/// Reading back the two's-complement bytes of a signed 32-bit value
/// yields the value.
pub proof fn lemma_sle32_roundtrip(x: i32)
    ensures
        sle32(sle32_bytes(x)[0], sle32_bytes(x)[1], sle32_bytes(x)[2], sle32_bytes(x)[3]) == x,
{
    lemma_le32_roundtrip(unsigned32(x));
}

/// Reading back the two's-complement byte of a signed 8-bit value
/// yields the value.
pub proof fn lemma_signed8_roundtrip(x: i8)
    ensures
        signed8(unsigned8(x)) == x,
{
}

/// Reads an unsigned 16-bit little-endian value at `off`.
pub fn read_u16_le(src: &[u8], off: usize) -> (r: u16)
    requires
        off + 2 <= src@.len(),
    ensures
        r == le16(src@[off as int], src@[off as int + 1]),
{
    (src[off] as u16) + (src[off + 1] as u16) * 0x100
}

/// Reads an unsigned 32-bit little-endian value at `off`.
pub fn read_u32_le(src: &[u8], off: usize) -> (r: u32)
    requires
        off + 4 <= src@.len(),
    ensures
        r == le32(
            src@[off as int],
            src@[off as int + 1],
            src@[off as int + 2],
            src@[off as int + 3],
        ),
{
    (src[off] as u32) + (src[off + 1] as u32) * 0x100 + (src[off + 2] as u32) * 0x10000 + (src[off
        + 3] as u32) * 0x1000000
}

/// Reads a signed 16-bit little-endian value at `off`.
pub fn read_i16_le(src: &[u8], off: usize) -> (r: i16)
    requires
        off + 2 <= src@.len(),
    ensures
        r == sle16(src@[off as int], src@[off as int + 1]),
{
    let u = read_u16_le(src, off);
    if u >= 0x8000 {
        -((u16::MAX - u) as i16) - 1
    } else {
        u as i16
    }
}

/// Reads a signed 32-bit little-endian value at `off`.
pub fn read_i32_le(src: &[u8], off: usize) -> (r: i32)
    requires
        off + 4 <= src@.len(),
    ensures
        r == sle32(
            src@[off as int],
            src@[off as int + 1],
            src@[off as int + 2],
            src@[off as int + 3],
        ),
{
    let u = read_u32_le(src, off);
    if u >= 0x8000_0000 {
        -((u32::MAX - u) as i32) - 1
    } else {
        u as i32
    }
}

/// Reads a signed byte at `off`.
pub fn read_i8(src: &[u8], off: usize) -> (r: i8)
    requires
        off < src@.len(),
    ensures
        r == signed8(src@[off as int]),
{
    let b = src[off];
    if b >= 0x80 {
        -((u8::MAX - b) as i8) - 1
    } else {
        b as i8
    }
}

/// Appends the two little-endian bytes of a 16-bit value.
pub fn write_u16_le(dst: &mut Vec<u8>, x: u16)
    ensures
        final(dst)@ == old(dst)@ + le16_bytes(x),
{
    dst.push((x % 0x100) as u8);
    dst.push(((x / 0x100) % 0x100) as u8);
    proof {
        assert(dst@ =~= old(dst)@ + le16_bytes(x));
    }
}

/// Appends the four little-endian bytes of a 32-bit value.
pub fn write_u32_le(dst: &mut Vec<u8>, x: u32)
    ensures
        final(dst)@ == old(dst)@ + le32_bytes(x),
{
    dst.push((x % 0x100) as u8);
    dst.push(((x / 0x100) % 0x100) as u8);
    dst.push(((x / 0x10000) % 0x100) as u8);
    dst.push(((x / 0x1000000) % 0x100) as u8);
    proof {
        assert(dst@ =~= old(dst)@ + le32_bytes(x));
    }
}

/// Appends the two's-complement little-endian bytes of a signed
/// 16-bit value.
pub fn write_i16_le(dst: &mut Vec<u8>, x: i16)
    ensures
        final(dst)@ == old(dst)@ + sle16_bytes(x),
{
    let u: u16 = if x < 0 {
        ((x as i32) + 0x10000) as u16
    } else {
        x as u16
    };
    write_u16_le(dst, u);
}

/// Appends the two's-complement little-endian bytes of a signed
/// 32-bit value.
pub fn write_i32_le(dst: &mut Vec<u8>, x: i32)
    ensures
        final(dst)@ == old(dst)@ + sle32_bytes(x),
{
    let u: u32 = if x < 0 {
        ((x as i64) + 0x1_0000_0000) as u32
    } else {
        x as u32
    };
    write_u32_le(dst, u);
}

/// Appends the two's-complement byte of a signed 8-bit value.
pub fn write_i8(dst: &mut Vec<u8>, x: i8)
    ensures
        final(dst)@ == old(dst)@ + seq![unsigned8(x)],
{
    let u: u8 = if x < 0 {
        ((x as i16) + 0x100) as u8
    } else {
        x as u8
    };
    dst.push(u);
    proof {
        assert(dst@ =~= old(dst)@ + seq![unsigned8(x)]);
    }
}

} // verus!
