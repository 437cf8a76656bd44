//! Single-bit and contiguous bit-range masks.

use vstd::prelude::*;

verus! {

/// The 32-bit word in which only bit `n` is set.
pub open spec fn spec_bit(n: u32) -> u32 {
    1u32 << n
}

/// The 64-bit word whose set bits are exactly those at positions `l..=h`.
pub open spec fn spec_genmask(h: u32, l: u32) -> u64 {
    (!0u64 << l) & (!0u64 >> (63 - h) as u32)
}

/// The 32-bit word whose set bits are exactly those at positions `l..=h`.
pub open spec fn spec_genmask32(h: u32, l: u32) -> u32 {
    (!0u32 << l) & (!0u32 >> (31 - h) as u32)
}

/// Produces the word in which only bit `n` is set.
pub fn bit(n: u32) -> (r: u32)
    requires
        n < 32,
    ensures
        r == spec_bit(n),
{
    1u32 << n
}

/// Creates a contiguous bitmask starting at bit position `l` and ending at
/// position `h`, both included.
pub fn genmask(h: u32, l: u32) -> (r: u64)
    requires
        l <= h < 64,
    ensures
        r == spec_genmask(h, l),
{
    (!0u64 << l) & (!0u64 >> (63 - h))
}

/// Creates a contiguous bitmask of 32 bits, starting at bit position `l`
/// and ending at position `h`, both included.
pub fn genmask32(h: u32, l: u32) -> (r: u32)
    requires
        l <= h < 32,
    ensures
        r == spec_genmask32(h, l),
{
    (!0u32 << l) & (!0u32 >> (31 - h))
}

/// A position is set in `spec_genmask32(h, l)` exactly when it lies in
/// `l..=h`.
pub proof fn lemma_genmask32_bits(h: u32, l: u32, i: u32)
    by (bit_vector)
    requires
        l <= h < 32,
        i < 32,
    ensures
        ((spec_genmask32(h, l) >> i) & 1 == 1) <==> (l <= i <= h),
{
}

/// A position is set in `spec_genmask(h, l)` exactly when it lies in `l..=h`.
pub proof fn lemma_genmask_bits(h: u32, l: u32, i: u32)
    by (bit_vector)
    requires
        l <= h < 64,
        i < 64,
    ensures
        ((spec_genmask(h, l) >> i) & 1 == 1) <==> (l <= i <= h),
{
}

} // verus!
