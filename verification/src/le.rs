//! Little-endian integer decoding from byte sequences.
use vstd::prelude::*;

verus! {

/// The little-endian `u16` stored at `s[i..i + 2]`.
pub open spec fn spec_u16_le(s: Seq<u8>, i: int) -> u16 {
    (s[i] as int + s[i + 1] as int * 0x100) as u16
}

/// The little-endian `u32` stored at `s[i..i + 4]`.
pub open spec fn spec_u32_le(s: Seq<u8>, i: int) -> u32 {
    (spec_u16_le(s, i) as int + spec_u16_le(s, i + 2) as int * 0x1_0000) as u32
}

/// The little-endian `u64` stored at `s[i..i + 8]`.
pub open spec fn spec_u64_le(s: Seq<u8>, i: int) -> u64 {
    (spec_u32_le(s, i) as int + spec_u32_le(s, i + 4) as int * 0x1_0000_0000) as u64
}

/// Little-endian integers: each byte weighs 256 times the one before it.
pub proof fn lemma_le_bytes(s: Seq<u8>, i: int)
    requires
        0 <= i,
    ensures
        i + 2 <= s.len() ==> spec_u16_le(s, i) == s[i] + 0x100 * s[i + 1],
        i + 4 <= s.len() ==> spec_u32_le(s, i) == s[i] + 0x100 * s[i + 1] + 0x1_0000 * s[i + 2] + 0x100_0000
            * s[i + 3],
        i + 8 <= s.len() ==> spec_u64_le(s, i) == s[i] + 0x100 * s[i + 1] + 0x1_0000 * s[i + 2] + 0x100_0000
            * s[i + 3] + 0x1_0000_0000 * s[i + 4] + 0x100_0000_0000 * s[i + 5] + 0x1_0000_0000_0000 * s[i + 6]
            + 0x100_0000_0000_0000 * s[i + 7],
{
}

/// Reads a little-endian `u16` at `pos`.
pub fn read_u16_le(buf: &[u8], pos: usize) -> (v: u16)
    requires
        pos + 2 <= buf.len(),
    ensures
        v == spec_u16_le(buf@, pos as int),
{
    buf[pos] as u16 + (buf[pos + 1] as u16) * 0x100
}

/// Reads a little-endian `u32` at `pos`.
pub fn read_u32_le(buf: &[u8], pos: usize) -> (v: u32)
    requires
        pos + 4 <= buf.len(),
    ensures
        v == spec_u32_le(buf@, pos as int),
{
    let lo = read_u16_le(buf, pos);
    let hi = read_u16_le(buf, pos + 2);
    lo as u32 + (hi as u32) * 0x1_0000
}

/// Reads a little-endian `u64` at `pos`.
pub fn read_u64_le(buf: &[u8], pos: usize) -> (v: u64)
    requires
        pos + 8 <= buf.len(),
    ensures
        v == spec_u64_le(buf@, pos as int),
{
    let lo = read_u32_le(buf, pos);
    let hi = read_u32_le(buf, pos + 4);
    lo as u64 + (hi as u64) * 0x1_0000_0000
}

} // verus!
