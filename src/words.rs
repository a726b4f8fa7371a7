//! Little-endian decoding of seed bytes into words.
use vstd::prelude::*;

verus! {

/// The 64-bit word whose little-endian encoding is `s[off .. off + 8]`.
pub open spec fn le_u64_at(s: Seq<u8>, off: int) -> u64 {
    (s[off] as int + 0x100 * s[off + 1] + 0x1_0000 * s[off + 2] + 0x100_0000 * s[off + 3]
        + 0x1_0000_0000 * s[off + 4] + 0x100_0000_0000 * s[off + 5]
        + 0x1_0000_0000_0000 * s[off + 6] + 0x100_0000_0000_0000 * s[off + 7]) as u64
}

/// The 32-bit word whose little-endian encoding is `s[off .. off + 4]`.
pub open spec fn le_u32_at(s: Seq<u8>, off: int) -> u32 {
    (s[off] as int + 0x100 * s[off + 1] + 0x1_0000 * s[off + 2] + 0x100_0000 * s[off + 3]) as u32
}

/// Relies on `rand_core::le::read_u64_into`: word `i` of `dst` becomes the
/// little-endian reading of bytes `8 * i .. 8 * i + 8` of `src`. It asserts
/// that `src` holds at least eight bytes per word of `dst`.
pub assume_specification[ rand_core::le::read_u64_into ](src: &[u8], dst: &mut [u64])
    requires
        src@.len() >= 8 * old(dst)@.len(),
    ensures
        final(dst)@.len() == old(dst)@.len(),
        forall|i: int| 0 <= i < old(dst)@.len() ==> final(dst)@[i] == le_u64_at(src@, 8 * i),
;

/// Relies on `rand_core::le::read_u32_into`: word `i` of `dst` becomes the
/// little-endian reading of bytes `4 * i .. 4 * i + 4` of `src`. It asserts
/// that `src` holds at least four bytes per word of `dst`.
pub assume_specification[ rand_core::le::read_u32_into ](src: &[u8], dst: &mut [u32])
    requires
        src@.len() >= 4 * old(dst)@.len(),
    ensures
        final(dst)@.len() == old(dst)@.len(),
        forall|i: int| 0 <= i < old(dst)@.len() ==> final(dst)@[i] == le_u32_at(src@, 4 * i),
;

/// Decodes a 16-byte seed into two little-endian 64-bit words.
pub fn u64_pair(seed: &[u8; 16]) -> (r: (u64, u64))
    ensures
        r.0 == le_u64_at(seed@, 0),
        r.1 == le_u64_at(seed@, 8),
{
    let mut words: Vec<u64> = vec![0u64, 0u64];
    rand_core::le::read_u64_into(seed.as_slice(), words.as_mut_slice());
    (words[0], words[1])
}

/// Decodes a 24-byte seed into three little-endian 64-bit words.
pub fn u64_triple(seed: &[u8; 24]) -> (r: (u64, u64, u64))
    ensures
        r.0 == le_u64_at(seed@, 0),
        r.1 == le_u64_at(seed@, 8),
        r.2 == le_u64_at(seed@, 16),
{
    let mut words: Vec<u64> = vec![0u64, 0u64, 0u64];
    rand_core::le::read_u64_into(seed.as_slice(), words.as_mut_slice());
    (words[0], words[1], words[2])
}

/// Decodes a 12-byte seed into three little-endian 32-bit words.
pub fn u32_triple(seed: &[u8; 12]) -> (r: (u32, u32, u32))
    ensures
        r.0 == le_u32_at(seed@, 0),
        r.1 == le_u32_at(seed@, 4),
        r.2 == le_u32_at(seed@, 8),
{
    let mut words: Vec<u32> = vec![0u32, 0u32, 0u32];
    rand_core::le::read_u32_into(seed.as_slice(), words.as_mut_slice());
    (words[0], words[1], words[2])
}

} // verus!
