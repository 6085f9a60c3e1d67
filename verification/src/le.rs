//! Integers read from bytes in little-endian order.

use vstd::prelude::*;

verus! {

/// The number whose little-endian digits in base 256 are `bytes`: the first
/// byte counts least.
pub open spec fn le_value(bytes: Seq<u8>) -> nat
    decreases bytes.len(),
{
    if bytes.len() == 0 {
        0
    } else {
        (bytes[0] as nat) + 256 * le_value(bytes.skip(1))
    }
}

/// `le_value` of four bytes, written out.
pub proof fn lemma_le_value_4(bytes: Seq<u8>)
    requires
        bytes.len() == 4,
    ensures
        le_value(bytes) == bytes[0] + 0x100 * bytes[1] + 0x1_0000 * bytes[2] + 0x100_0000
            * bytes[3],
        le_value(bytes) <= u32::MAX,
{
    let s1 = bytes.skip(1);
    let s2 = s1.skip(1);
    let s3 = s2.skip(1);
    let s4 = s3.skip(1);
    assert(le_value(s4) == 0);
    assert(le_value(s3) == s3[0] + 256 * le_value(s4));
    assert(le_value(s2) == s2[0] + 256 * le_value(s3));
    assert(le_value(s1) == s1[0] + 256 * le_value(s2));
    assert(le_value(bytes) == bytes[0] + 256 * le_value(s1));
}

/// `le_value` of eight bytes, written out.
pub proof fn lemma_le_value_8(bytes: Seq<u8>)
    requires
        bytes.len() == 8,
    ensures
        le_value(bytes) == le_value(bytes.subrange(0, 4)) + 0x1_0000_0000 * le_value(
            bytes.subrange(4, 8),
        ),
        le_value(bytes) <= u64::MAX,
{
    let lo = bytes.subrange(0, 4);
    let hi = bytes.subrange(4, 8);
    lemma_le_value_4(lo);
    lemma_le_value_4(hi);
    let s1 = bytes.skip(1);
    let s2 = s1.skip(1);
    let s3 = s2.skip(1);
    let s4 = s3.skip(1);
    assert(s4 =~= hi);
    assert(le_value(s3) == s3[0] + 256 * le_value(s4));
    assert(le_value(s2) == s2[0] + 256 * le_value(s3));
    assert(le_value(s1) == s1[0] + 256 * le_value(s2));
    assert(le_value(bytes) == bytes[0] + 256 * le_value(s1));
}

/// Reads a `u32` from four bytes, the least significant first.
pub fn u32_from_le(bytes: &[u8; 4]) -> (out: u32)
    ensures
        out == le_value(bytes@),
{
    proof {
        lemma_le_value_4(bytes@);
    }
    let b0: u32 = bytes[0] as u32;
    let b1: u32 = bytes[1] as u32;
    let b2: u32 = bytes[2] as u32;
    let b3: u32 = bytes[3] as u32;
    b0 + 0x100 * b1 + 0x1_0000 * b2 + 0x100_0000 * b3
}

/// Reads a `u64` from eight bytes, the least significant first.
pub fn u64_from_le(bytes: &[u8; 8]) -> (out: u64)
    ensures
        out == le_value(bytes@),
{
    proof {
        lemma_le_value_8(bytes@);
        lemma_le_value_4(bytes@.subrange(0, 4));
        lemma_le_value_4(bytes@.subrange(4, 8));
    }
    let b0: u64 = bytes[0] as u64;
    let b1: u64 = bytes[1] as u64;
    let b2: u64 = bytes[2] as u64;
    let b3: u64 = bytes[3] as u64;
    let b4: u64 = bytes[4] as u64;
    let b5: u64 = bytes[5] as u64;
    let b6: u64 = bytes[6] as u64;
    let b7: u64 = bytes[7] as u64;
    let lo: u64 = b0 + 0x100 * b1 + 0x1_0000 * b2 + 0x100_0000 * b3;
    let hi: u64 = b4 + 0x100 * b5 + 0x1_0000 * b6 + 0x100_0000 * b7;
    lo + 0x1_0000_0000 * hi
}

} // verus!
