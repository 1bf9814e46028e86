use vstd::prelude::*;
use crate::hexenc::{encode_hex, hex_of};

verus! {

/// Default number of loops of the hash primitive.
pub const DEFAULT_LOOPS: u32 = 8;

/// Default number of instructions per loop of the hash primitive.
pub const DEFAULT_INSTRUCTIONS: u32 = 256;

/// The hash engine may be called on every preimage and tuning.
pub open spec fn accepts_all<E: Fn(&String, u32, u32) -> [u8; 64]>(engine: E) -> bool {
    forall|p: &String, loops: u32, instrs: u32| #[trigger] engine.requires((p, loops, instrs))
}

/// The hash engine is a function: preimages with the same text and the same tuning
/// always give the same digest.
pub open spec fn deterministic<E: Fn(&String, u32, u32) -> [u8; 64]>(engine: E) -> bool {
    forall|p1: &String, p2: &String, loops: u32, instrs: u32, d1: [u8; 64], d2: [u8; 64]|
        #![trigger engine.ensures((p1, loops, instrs), d1), engine.ensures((p2, loops, instrs), d2)]
        p1@ == p2@ && engine.ensures((p1, loops, instrs), d1) && engine.ensures(
            (p2, loops, instrs),
            d2,
        ) ==> d1 == d2
}

/// `d` is a digest that the engine reports for a preimage with text `p`.
pub open spec fn reports<E: Fn(&String, u32, u32) -> [u8; 64]>(
    engine: E,
    p: Seq<char>,
    loops: u32,
    instrs: u32,
    d: Seq<u8>,
) -> bool {
    exists|s: &String, a: [u8; 64]|
        #![trigger engine.ensures((s, loops, instrs), a)]
        s@ == p && engine.ensures((s, loops, instrs), a) && a@ == d
}

/// `h` is the hex text of a digest that the engine reports for a preimage with text `p`.
pub open spec fn hashes_to<E: Fn(&String, u32, u32) -> [u8; 64]>(
    engine: E,
    p: Seq<char>,
    loops: u32,
    instrs: u32,
    h: Seq<char>,
) -> bool {
    exists|d: Seq<u8>| #[trigger] reports(engine, p, loops, instrs, d) && h == hex_of(d)
}

/// Hashes one preimage with the given tuning, as 128 lower-case hex characters.
pub fn hash_with_params<E: Fn(&String, u32, u32) -> [u8; 64]>(
    engine: &E,
    preimage: &String,
    nb_loops: u32,
    nb_instrs: u32,
) -> (r: String)
    requires
        accepts_all(*engine),
    ensures
        hashes_to(*engine, preimage@, nb_loops, nb_instrs, r@),
        r@.len() == 128,
{
    let digest = engine(preimage, nb_loops, nb_instrs);
    let r = encode_hex(&digest);
    assert(reports(*engine, preimage@, nb_loops, nb_instrs, digest@));
    r
}

/// Hashes one preimage with the default tuning.
pub fn hash<E: Fn(&String, u32, u32) -> [u8; 64]>(engine: &E, preimage: &String) -> (r: String)
    requires
        accepts_all(*engine),
    ensures
        hashes_to(*engine, preimage@, DEFAULT_LOOPS, DEFAULT_INSTRUCTIONS, r@),
        r@.len() == 128,
{
    hash_with_params(engine, preimage, DEFAULT_LOOPS, DEFAULT_INSTRUCTIONS)
}

/// A deterministic engine reports one digest per preimage text and tuning.
pub proof fn reported_digest_is_unique<E: Fn(&String, u32, u32) -> [u8; 64]>(
    engine: E,
    p: Seq<char>,
    loops: u32,
    instrs: u32,
    d1: Seq<u8>,
    d2: Seq<u8>,
)
    requires
        deterministic(engine),
        reports(engine, p, loops, instrs, d1),
        reports(engine, p, loops, instrs, d2),
    ensures
        d1 == d2,
{
    let (s1, a1) = choose|s: &String, a: [u8; 64]|
        s@ == p && engine.ensures((s, loops, instrs), a) && a@ == d1;
    let (s2, a2) = choose|s: &String, a: [u8; 64]|
        s@ == p && engine.ensures((s, loops, instrs), a) && a@ == d2;
    assert(a1 == a2);
}

/// Hashing is deterministic: two hashes of the same preimage text with the same tuning,
/// against the same deterministic engine, are the same text.
pub proof fn hash_is_deterministic<E: Fn(&String, u32, u32) -> [u8; 64]>(
    engine: E,
    p: Seq<char>,
    loops: u32,
    instrs: u32,
    h1: Seq<char>,
    h2: Seq<char>,
)
    requires
        deterministic(engine),
        hashes_to(engine, p, loops, instrs, h1),
        hashes_to(engine, p, loops, instrs, h2),
    ensures
        h1 == h2,
{
    let d1 = choose|d: Seq<u8>| reports(engine, p, loops, instrs, d) && h1 == hex_of(d);
    let d2 = choose|d: Seq<u8>| reports(engine, p, loops, instrs, d) && h2 == hex_of(d);
    reported_digest_is_unique(engine, p, loops, instrs, d1, d2);
}

/// Hashing with the default tuning gives what hashing with 8 loops of 256 instructions gives.
pub proof fn default_tuning_is_eight_by_256<E: Fn(&String, u32, u32) -> [u8; 64]>(
    engine: E,
    p: Seq<char>,
    h_default: Seq<char>,
    h_params: Seq<char>,
)
    requires
        deterministic(engine),
        hashes_to(engine, p, DEFAULT_LOOPS, DEFAULT_INSTRUCTIONS, h_default),
        hashes_to(engine, p, 8, 256, h_params),
    ensures
        h_default == h_params,
{
    hash_is_deterministic(engine, p, 8, 256, h_default, h_params);
}

/// Every hash text is 128 characters long: 64 digest bytes, whatever the preimage or tuning.
pub proof fn hash_text_has_128_chars<E: Fn(&String, u32, u32) -> [u8; 64]>(
    engine: E,
    p: Seq<char>,
    loops: u32,
    instrs: u32,
    h: Seq<char>,
)
    requires
        hashes_to(engine, p, loops, instrs, h),
    ensures
        h.len() == 128,
{
    let d = choose|d: Seq<u8>| reports(engine, p, loops, instrs, d) && h == hex_of(d);
    let (s, a) = choose|s: &String, a: [u8; 64]|
        s@ == p && engine.ensures((s, loops, instrs), a) && a@ == d;
    assert(a@.len() == 64);
}

} // verus!
