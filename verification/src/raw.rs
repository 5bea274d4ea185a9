//! Little-endian word access into a record's trailing bytes, and the
//! bit-packed sub-fields of a record header's `info` word.

use vstd::prelude::*;

verus! {

/// The 32-bit word stored little-endian at byte offset `off` of `data`.
pub open spec fn spec_u32_at(data: Seq<u8>, off: int) -> u32
    recommends
        0 <= off,
        off + 4 <= data.len(),
{
    (data[off] as u32) | ((data[off + 1] as u32) << 8) | ((data[off + 2] as u32) << 16) | ((data[
        off + 3] as u32) << 24)
}

/// Reads the 32-bit little-endian word at byte offset `off` of `data`.
pub fn u32_at(data: &[u8], off: usize) -> (r: u32)
    requires
        off + 4 <= data@.len(),
    ensures
        r == spec_u32_at(data@, off as int),
{
    let b0 = data[off];
    let b1 = data[off + 1];
    let b2 = data[off + 2];
    let b3 = data[off + 3];
    (b0 as u32) | ((b1 as u32) << 8) | ((b2 as u32) << 16) | ((b3 as u32) << 24)
}

/// The `vlen` sub-field of a header's `info` word: bits 0–15, a trailing
/// member count for collection kinds (overloaded by a few kinds).
pub open spec fn spec_vlen(info: u32) -> u32 {
    info & 0xffff
}

/// The kind tag of a header's `info` word: bits 24–28.
pub open spec fn spec_kind_tag(info: u32) -> u32 {
    (info >> 24) & 0x1f
}

/// The `kind_flag` bit of a header's `info` word: bit 31.
pub open spec fn spec_kind_flag(info: u32) -> bool {
    (info >> 31) & 1 == 1
}

/// `vlen` occupies 16 bits, so it never exceeds `0xffff`; trailing-region
/// sizes derived from it therefore fit comfortably in a `usize`.
pub proof fn lemma_vlen_bound(info: u32)
    ensures
        spec_vlen(info) <= 0xffff,
{
    assert(info & 0xffff <= 0xffff) by (bit_vector);
}

} // verus!
