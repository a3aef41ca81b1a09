use vstd::prelude::*;

verus! {

/// The value of two bytes read as a little-endian unsigned 16-bit integer.
pub open spec fn spec_u16_le(lo: u8, hi: u8) -> int {
    lo + 256 * hi
}

/// The value of two bytes read as a little-endian two's-complement 16-bit integer.
pub open spec fn spec_i16_le(lo: u8, hi: u8) -> int {
    if hi < 128 {
        lo + 256 * hi
    } else {
        lo + 256 * hi - 65536
    }
}

/// The value of four bytes read as a little-endian unsigned 32-bit integer.
pub open spec fn spec_u32_le(b0: u8, b1: u8, b2: u8, b3: u8) -> int {
    b0 + 256 * b1 + 65536 * b2 + 16777216 * b3
}

/// Reads `[lo, hi]` as a little-endian `u16`.
pub fn u16_from_le(lo: u8, hi: u8) -> (r: u16)
    ensures
        r == spec_u16_le(lo, hi),
{
    lo as u16 + 256 * (hi as u16)
}

/// Reads `[lo, hi]` as a little-endian `i16`.
pub fn i16_from_le(lo: u8, hi: u8) -> (r: i16)
    ensures
        r == spec_i16_le(lo, hi),
{
    if hi < 128 {
        (lo as i32 + 256 * (hi as i32)) as i16
    } else {
        (lo as i32 + 256 * (hi as i32) - 65536) as i16
    }
}

/// Reads `[b0, b1, b2, b3]` as a little-endian `u32`.
pub fn u32_from_le(b0: u8, b1: u8, b2: u8, b3: u8) -> (r: u32)
    ensures
        r == spec_u32_le(b0, b1, b2, b3),
{
    b0 as u32 + 256 * (b1 as u32) + 65536 * (b2 as u32) + 16777216 * (b3 as u32)
}

/// The first byte of an SPI read of register `reg`: the address with the
/// read flag (bit 7) set.
pub fn read_command(reg: u8) -> (b: u8)
    ensures
        b == reg | 0x80,
        reg < 128 ==> b == reg + 128,
{
    let b: u8 = 0b1000_0000 | reg;
    assert(b == reg | 0x80 && (reg < 128 ==> b == reg + 128)) by (bit_vector)
        requires
            b == 0x80u8 | reg,
    ;
    b
}

/// A little-endian pair read as a two's-complement integer lies in the
/// `i16` range and agrees with the unsigned reading modulo 2^16.
pub proof fn lemma_i16_le(lo: u8, hi: u8)
    ensures
        -32768 <= spec_i16_le(lo, hi) <= 32767,
        (spec_i16_le(lo, hi) + 65536) % 65536 == spec_u16_le(lo, hi),
        (spec_i16_le(lo, hi) < 0) == (hi >= 128),
{
}

/// A little-endian word splits back into its bytes.
pub proof fn lemma_u32_le(b0: u8, b1: u8, b2: u8, b3: u8)
    ensures
        spec_u32_le(b0, b1, b2, b3) % 256 == b0,
        (spec_u32_le(b0, b1, b2, b3) / 256) % 256 == b1,
        (spec_u32_le(b0, b1, b2, b3) / 65536) % 256 == b2,
        spec_u32_le(b0, b1, b2, b3) / 16777216 == b3,
{
}

} // verus!
