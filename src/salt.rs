use vstd::prelude::*;
use vstd::string::StringExecFns;
use rand::RngCore;
use crate::hexenc::{encode_hex, hex_of, hex_of_injective};

verus! {

/// The eight bytes of `n`, most significant first.
pub open spec fn be_bytes(n: u64) -> Seq<u8> {
    seq![
        ((n >> 56u64) & 0xffu64) as u8,
        ((n >> 48u64) & 0xffu64) as u8,
        ((n >> 40u64) & 0xffu64) as u8,
        ((n >> 32u64) & 0xffu64) as u8,
        ((n >> 24u64) & 0xffu64) as u8,
        ((n >> 16u64) & 0xffu64) as u8,
        ((n >> 8u64) & 0xffu64) as u8,
        (n & 0xffu64) as u8,
    ]
}

/// The nonce of candidate `index` in a batch drawn from `seed`: the seed plus the index,
/// wrapping at 2^64.
pub open spec fn nonce_for(seed: u64, index: u32) -> u64 {
    ((seed as int + index as int) % 0x1_0000_0000_0000_0000int) as u64
}

/// A salt: the hex text of the nonce's eight bytes, then the fixed suffix.
pub open spec fn salt_of(nonce: u64, preimage_static: Seq<char>) -> Seq<char> {
    hex_of(be_bytes(nonce)) + preimage_static
}

/// The salt of candidate `index` in a batch drawn from `seed`.
pub open spec fn candidate_salt_of(seed: u64, index: u32, preimage_static: Seq<char>) -> Seq<char> {
    salt_of(nonce_for(seed, index), preimage_static)
}

/// Relies on rand's thread_rng().next_u64(): a fresh random value, of which nothing is known.
#[verifier::external_body]
pub(crate) fn random_seed() -> u64 {
    rand::thread_rng().next_u64()
}

/// The eight bytes of `n`, most significant first.
pub fn nonce_bytes(n: u64) -> (r: [u8; 8])
    ensures
        r@ == be_bytes(n),
{
    let r: [u8; 8] = [
        ((n >> 56u64) & 0xffu64) as u8,
        ((n >> 48u64) & 0xffu64) as u8,
        ((n >> 40u64) & 0xffu64) as u8,
        ((n >> 32u64) & 0xffu64) as u8,
        ((n >> 24u64) & 0xffu64) as u8,
        ((n >> 16u64) & 0xffu64) as u8,
        ((n >> 8u64) & 0xffu64) as u8,
        (n & 0xffu64) as u8,
    ];
    assert(r@ =~= be_bytes(n));
    r
}

/// The nonce of candidate `index` in a batch drawn from `seed`.
pub fn nonce_at(seed: u64, index: u32) -> (r: u64)
    ensures
        r == nonce_for(seed, index),
{
    let i: u64 = index as u64;
    if seed <= u64::MAX - i {
        seed + i
    } else {
        i - (u64::MAX - seed) - 1
    }
}

/// Builds the salt for `nonce`: its bytes in hex, followed by `preimage_static`.
pub fn build_salt(nonce: u64, preimage_static: &str) -> (r: String)
    ensures
        r@ == salt_of(nonce, preimage_static@),
        r@.len() == 16 + preimage_static@.len(),
{
    let bytes = nonce_bytes(nonce);
    let mut salt = encode_hex(&bytes);
    salt.append(preimage_static);
    salt
}

/// Builds the salt of candidate `index` in a batch drawn from `seed`.
pub fn candidate_salt(seed: u64, index: u32, preimage_static: &str) -> (r: String)
    ensures
        r@ == candidate_salt_of(seed, index, preimage_static@),
        r@.len() == 16 + preimage_static@.len(),
{
    build_salt(nonce_at(seed, index), preimage_static)
}

proof fn low_byte_eq(x: u64, y: u64)
    requires
        (x & 0xffu64) as u8 == (y & 0xffu64) as u8,
    ensures
        (x & 0xffu64) == (y & 0xffu64),
{
    assert((x & 0xffu64) < 256u64) by (bit_vector);
    assert((y & 0xffu64) < 256u64) by (bit_vector);
}

proof fn be_bytes_injective(n1: u64, n2: u64)
    requires
        be_bytes(n1) == be_bytes(n2),
    ensures
        n1 == n2,
{
    let b1 = be_bytes(n1);
    let b2 = be_bytes(n2);
    assert(b1[0] == b2[0] && b1[1] == b2[1] && b1[2] == b2[2] && b1[3] == b2[3]);
    assert(b1[4] == b2[4] && b1[5] == b2[5] && b1[6] == b2[6] && b1[7] == b2[7]);
    low_byte_eq(n1 >> 56u64, n2 >> 56u64);
    low_byte_eq(n1 >> 48u64, n2 >> 48u64);
    low_byte_eq(n1 >> 40u64, n2 >> 40u64);
    low_byte_eq(n1 >> 32u64, n2 >> 32u64);
    low_byte_eq(n1 >> 24u64, n2 >> 24u64);
    low_byte_eq(n1 >> 16u64, n2 >> 16u64);
    low_byte_eq(n1 >> 8u64, n2 >> 8u64);
    low_byte_eq(n1, n2);
    assert((((n1 >> 56u64) & 0xffu64) == ((n2 >> 56u64) & 0xffu64) && ((n1 >> 48u64) & 0xffu64)
        == ((n2 >> 48u64) & 0xffu64) && ((n1 >> 40u64) & 0xffu64) == ((n2 >> 40u64) & 0xffu64)
        && ((n1 >> 32u64) & 0xffu64) == ((n2 >> 32u64) & 0xffu64) && ((n1 >> 24u64) & 0xffu64)
        == ((n2 >> 24u64) & 0xffu64) && ((n1 >> 16u64) & 0xffu64) == ((n2 >> 16u64) & 0xffu64)
        && ((n1 >> 8u64) & 0xffu64) == ((n2 >> 8u64) & 0xffu64) && (n1 & 0xffu64) == (n2
        & 0xffu64)) ==> n1 == n2) by (bit_vector);
}

/// Within one batch, distinct candidate indices give distinct salts.
pub proof fn candidate_salts_are_distinct(seed: u64, i: u32, j: u32, preimage_static: Seq<char>)
    requires
        i != j,
    ensures
        candidate_salt_of(seed, i, preimage_static) != candidate_salt_of(seed, j, preimage_static),
{
    let n1 = nonce_for(seed, i);
    let n2 = nonce_for(seed, j);
    assert(n1 != n2) by (nonlinear_arith)
        requires
            n1 == ((seed as int + i as int) % 0x1_0000_0000_0000_0000int) as u64,
            n2 == ((seed as int + j as int) % 0x1_0000_0000_0000_0000int) as u64,
            i != j,
    {}
    if candidate_salt_of(seed, i, preimage_static) == candidate_salt_of(seed, j, preimage_static) {
        let s1 = salt_of(n1, preimage_static);
        let s2 = salt_of(n2, preimage_static);
        assert(s1.subrange(0, 16) =~= hex_of(be_bytes(n1)));
        assert(s2.subrange(0, 16) =~= hex_of(be_bytes(n2)));
        hex_of_injective(be_bytes(n1), be_bytes(n2));
        be_bytes_injective(n1, n2);
    }
}

} // verus!
