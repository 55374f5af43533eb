//! Little-endian and two's-complement encodings shared by the protocols.

use vstd::prelude::*;

verus! {

/// The unsigned 16-bit value whose little-endian bytes are `lo`, `hi`.
pub open spec fn spec_u16_le(lo: u8, hi: u8) -> u16 {
    (lo as int + 256 * (hi as int)) as u16
}

/// The signed 16-bit value whose little-endian two's-complement bytes are
/// `lo`, `hi`.
pub open spec fn spec_i16_le(lo: u8, hi: u8) -> i16 {
    let v = lo as int + 256 * (hi as int);
    if v < 32768 {
        v as i16
    } else {
        (v - 65536) as i16
    }
}

/// The signed value of a byte read as two's complement.
pub open spec fn spec_i8(b: u8) -> i8 {
    if b < 128 {
        b as i8
    } else {
        (b as int - 256) as i8
    }
}

/// The 16-bit pattern that stands for `v` in two's complement.
pub open spec fn spec_i16_bits(v: i16) -> u16 {
    if v >= 0 {
        v as u16
    } else {
        (v as int + 65536) as u16
    }
}

/// The two little-endian bytes of `v`.
pub open spec fn spec_u16_bytes(v: u16) -> Seq<u8> {
    seq![(v % 256) as u8, (v / 256) as u8]
}

/// The two little-endian two's-complement bytes of `v`.
pub open spec fn spec_i16_bytes(v: i16) -> Seq<u8> {
    spec_u16_bytes(spec_i16_bits(v))
}

/// The four little-endian bytes of `v`.
pub open spec fn spec_u32_bytes(v: u32) -> Seq<u8> {
    seq![
        (v % 256) as u8,
        ((v / 256) % 256) as u8,
        ((v / 65536) % 256) as u8,
        (v / 16777216) as u8,
    ]
}

pub fn u16_le(lo: u8, hi: u8) -> (r: u16)
    ensures
        r == spec_u16_le(lo, hi),
{
    lo as u16 + 256 * (hi as u16)
}

pub fn i16_le(lo: u8, hi: u8) -> (r: i16)
    ensures
        r == spec_i16_le(lo, hi),
{
    let v: i32 = lo as i32 + 256 * (hi as i32);
    if v < 32768 {
        v as i16
    } else {
        (v - 65536) as i16
    }
}

pub fn i8_from_byte(b: u8) -> (r: i8)
    ensures
        r == spec_i8(b),
{
    if b < 128 {
        b as i8
    } else {
        (b as i16 - 256) as i8
    }
}

/// Appends the two little-endian bytes of `v` to `out`.
pub fn push_u16_le(out: &mut Vec<u8>, v: u16)
    ensures
        final(out)@ == old(out)@ + spec_u16_bytes(v),
{
    out.push((v % 256) as u8);
    out.push((v / 256) as u8);
    assert(out@ =~= old(out)@ + spec_u16_bytes(v));
}

/// Appends the two little-endian two's-complement bytes of `v` to `out`.
pub fn push_i16_le(out: &mut Vec<u8>, v: i16)
    ensures
        final(out)@ == old(out)@ + spec_i16_bytes(v),
{
    let bits: u16 = if v >= 0 {
        v as u16
    } else {
        (v as i32 + 65536) as u16
    };
    push_u16_le(out, bits);
}

/// Appends the four little-endian bytes of `v` to `out`.
pub fn push_u32_le(out: &mut Vec<u8>, v: u32)
    ensures
        final(out)@ == old(out)@ + spec_u32_bytes(v),
{
    out.push((v % 256) as u8);
    out.push(((v / 256) % 256) as u8);
    out.push(((v / 65536) % 256) as u8);
    out.push((v / 16777216) as u8);
    assert(out@ =~= old(out)@ + spec_u32_bytes(v));
}

} // verus!
