//! Bit-level vocabulary shared by the register catalog and the transports.

use crate::triplet::Triplet;
use vstd::prelude::*;

verus! {

/// `bits` sets no bit outside `mask`.
pub open spec fn within(bits: u8, mask: u8) -> bool {
    bits & !mask == 0
}

/// Masking, the empty set and unions stay inside a mask.
pub proof fn lemma_within(a: u8, b: u8, m: u8)
    by (bit_vector)
    ensures
        within(a & m, m),
        within(0, m),
        within(a, m) ==> a & m == a,
        within(a, m) && within(b, m) ==> within(a | b, m),
{
}

/// Two fields that share no bit can each be read back from their union, and a
/// byte masked field by field is the byte masked by both.
pub proof fn lemma_fields(hi: u8, lo: u8, hi_mask: u8, lo_mask: u8, b: u8)
    by (bit_vector)
    requires
        hi_mask & lo_mask == 0,
    ensures
        within(hi, hi_mask) && within(lo, lo_mask) ==> (hi | lo) & hi_mask == hi,
        within(hi, hi_mask) && within(lo, lo_mask) ==> (hi | lo) & lo_mask == lo,
        within(hi, hi_mask) && within(lo, lo_mask) ==> within(hi | lo, hi_mask | lo_mask),
        (b & hi_mask) | (b & lo_mask) == b & (hi_mask | lo_mask),
{
}

/// How the field masks of the composite registers sit beside each other.
pub proof fn lemma_masks()
    by (bit_vector)
    ensures
        0x40u8 & 0x0Fu8 == 0,
        0x40u8 | 0x0Fu8 == 0x4Fu8,
        0xF0u8 & 0x0Fu8 == 0,
        0xF0u8 | 0x0Fu8 == 0xFFu8,
        0xF8u8 & 0x07u8 == 0,
        0xF8u8 | 0x07u8 == 0xFFu8,
        0x80u8 & 0xF8u8 == 0x80u8,
{
}

/// A small code fits the low bits that are reserved for it.
pub proof fn lemma_code(c: u8)
    by (bit_vector)
    ensures
        c < 16 ==> within(c, 0x0F),
        c < 8 ==> within(c, 0x07),
        c < 4 ==> within(c, 0x03),
        c & 0x0F < 16,
        c & 0x07 < 8,
        c & 0x03 < 4,
        c | 0 == c,
        0 | c == c,
{
}

/// The signed 16-bit count whose two's-complement halves are `hi` and `lo`.
pub open spec fn count_of(hi: u8, lo: u8) -> int {
    if hi >= 128 {
        hi * 256 + lo - 65536
    } else {
        hi * 256 + lo
    }
}

/// Joins the two halves of a signed 16-bit count.
pub fn join(hi: u8, lo: u8) -> (r: i16)
    ensures
        r == count_of(hi, lo),
{
    if hi >= 128 {
        let h: i16 = (hi - 128) as i16;
        let v: i16 = h * 256 + lo as i16;
        v - 32767 - 1
    } else {
        let h: i16 = hi as i16;
        h * 256 + lo as i16
    }
}

/// Three counts read from six consecutive bytes, each most significant byte
/// first: the byte order of the MPU-9250.
pub open spec fn spec_be_counts(bytes: Seq<u8>, at: int) -> Triplet<i16> {
    Triplet {
        x: count_of(bytes[at], bytes[at + 1]) as i16,
        y: count_of(bytes[at + 2], bytes[at + 3]) as i16,
        z: count_of(bytes[at + 4], bytes[at + 5]) as i16,
    }
}

/// Three counts read from six consecutive bytes, each least significant byte
/// first: the byte order of the AK8963.
pub open spec fn spec_le_counts(bytes: Seq<u8>, at: int) -> Triplet<i16> {
    Triplet {
        x: count_of(bytes[at + 1], bytes[at]) as i16,
        y: count_of(bytes[at + 3], bytes[at + 2]) as i16,
        z: count_of(bytes[at + 5], bytes[at + 4]) as i16,
    }
}

/// Three counts read from six consecutive bytes, each most significant byte
/// first.
pub fn be_counts(bytes: &[u8], at: usize) -> (r: Triplet<i16>)
    requires
        at + 6 <= bytes.len(),
    ensures
        r == spec_be_counts(bytes@, at as int),
{
    Triplet {
        x: join(bytes[at], bytes[at + 1]),
        y: join(bytes[at + 2], bytes[at + 3]),
        z: join(bytes[at + 4], bytes[at + 5]),
    }
}

/// Three counts read from six consecutive bytes, each least significant byte
/// first.
pub fn le_counts(bytes: &[u8], at: usize) -> (r: Triplet<i16>)
    requires
        at + 6 <= bytes.len(),
    ensures
        r == spec_le_counts(bytes@, at as int),
{
    Triplet {
        x: join(bytes[at + 1], bytes[at]),
        y: join(bytes[at + 3], bytes[at + 2]),
        z: join(bytes[at + 5], bytes[at + 4]),
    }
}

} // verus!
