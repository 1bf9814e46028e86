use vstd::prelude::*;

verus! {

/// The big-endian value of the first four bytes of a digest.
pub open spec fn prefix_of(d: Seq<u8>) -> u32
    recommends
        d.len() >= 4,
{
    ((d[0] as u32) << 24u32) | ((d[1] as u32) << 16u32) | ((d[2] as u32) << 8u32) | (d[3] as u32)
}

/// A digest prefix meets a mask when every bit set in the prefix is also set in the mask.
pub open spec fn meets(prefix: u32, mask: u32) -> bool {
    (prefix | mask) == mask
}

/// Tests whether the leading four bytes of `hash` (big-endian) have no bit outside `difficulty_mask`.
pub fn meets_difficulty(hash: &[u8; 64], difficulty_mask: u32) -> (r: bool)
    ensures
        r == meets(prefix_of(hash@), difficulty_mask),
{
    let hash_prefix: u32 = ((hash[0] as u32) << 24u32) | ((hash[1] as u32) << 16u32) | ((hash[2]
        as u32) << 8u32) | (hash[3] as u32);
    (hash_prefix | difficulty_mask) == difficulty_mask
}

/// A prefix meets a mask exactly when it has no bit outside the mask.
pub proof fn meets_iff_no_bits_outside_mask(prefix: u32, mask: u32)
    ensures
        meets(prefix, mask) <==> (prefix & !mask) == 0,
{
    assert(((prefix | mask) == mask) <==> ((prefix & !mask) == 0u32)) by (bit_vector);
}

/// The empty mask accepts only the all-zero prefix.
pub proof fn zero_mask_accepts_only_zero(prefix: u32)
    ensures
        meets(prefix, 0) <==> prefix == 0,
{
    assert(((prefix | 0u32) == 0u32) <==> (prefix == 0u32)) by (bit_vector);
}

/// The full mask accepts every prefix.
pub proof fn full_mask_accepts_all(prefix: u32)
    ensures
        meets(prefix, 0xFFFF_FFFF),
{
    assert((prefix | 0xFFFF_FFFFu32) == 0xFFFF_FFFFu32) by (bit_vector);
}

} // verus!
