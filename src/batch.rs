use vstd::prelude::*;
use rayon::iter::{IntoParallelRefIterator, ParallelIterator};
use crate::engine::{
    accepts_all, deterministic, hash_is_deterministic, hash_with_params, hashes_to,
    DEFAULT_INSTRUCTIONS, DEFAULT_LOOPS,
};

verus! {

/// Relies on rayon's `par_iter().map(f).collect()` into a `Vec`: one output per input,
/// each produced by a call of `f` on the input at the same index.
#[verifier::external_body]
fn par_map_strings<F: Fn(&String) -> String + Sync + Send>(items: &Vec<String>, f: F) -> (r: Vec<
    String,
>)
    requires
        forall|i: int| 0 <= i < items.len() ==> #[trigger] f.requires((&items[i],)),
    ensures
        r.len() == items.len(),
        forall|i: int| 0 <= i < items.len() ==> f.ensures((&items[i],), #[trigger] r[i]),
{
    items.par_iter().map(f).collect()
}

/// Hashes every preimage in parallel with the given tuning; the digests keep the input order.
pub fn hash_batch_with_params<E: Fn(&String, u32, u32) -> [u8; 64] + Sync>(
    engine: &E,
    preimages: &Vec<String>,
    nb_loops: u32,
    nb_instrs: u32,
) -> (r: Vec<String>)
    requires
        accepts_all(*engine),
    ensures
        r.len() == preimages.len(),
        forall|i: int|
            0 <= i < preimages.len() ==> hashes_to(
                *engine,
                preimages[i]@,
                nb_loops,
                nb_instrs,
                #[trigger] r[i]@,
            ) && r[i]@.len() == 128,
{
    let one = |p: &String| -> (h: String)
        ensures
            hashes_to(*engine, p@, nb_loops, nb_instrs, h@),
            h@.len() == 128,
        { hash_with_params(engine, p, nb_loops, nb_instrs) };
    par_map_strings(preimages, one)
}

/// Hashes every preimage in parallel with the default tuning; the digests keep the input order.
pub fn hash_batch<E: Fn(&String, u32, u32) -> [u8; 64] + Sync>(
    engine: &E,
    preimages: &Vec<String>,
) -> (r: Vec<String>)
    requires
        accepts_all(*engine),
    ensures
        r.len() == preimages.len(),
        forall|i: int|
            0 <= i < preimages.len() ==> hashes_to(
                *engine,
                preimages[i]@,
                DEFAULT_LOOPS,
                DEFAULT_INSTRUCTIONS,
                #[trigger] r[i]@,
            ) && r[i]@.len() == 128,
{
    hash_batch_with_params(engine, preimages, DEFAULT_LOOPS, DEFAULT_INSTRUCTIONS)
}

/// Each entry of a batch result is the hash of the preimage at the same index, as `hash`
/// would give it; an empty batch gives an empty result.
pub proof fn batch_entry_is_single_hash<E: Fn(&String, u32, u32) -> [u8; 64]>(
    engine: E,
    preimages: Seq<String>,
    results: Seq<String>,
    i: int,
    h: Seq<char>,
)
    requires
        deterministic(engine),
        results.len() == preimages.len(),
        forall|j: int|
            0 <= j < preimages.len() ==> hashes_to(
                engine,
                preimages[j]@,
                DEFAULT_LOOPS,
                DEFAULT_INSTRUCTIONS,
                #[trigger] results[j]@,
            ),
        0 <= i < preimages.len(),
        hashes_to(engine, preimages[i]@, DEFAULT_LOOPS, DEFAULT_INSTRUCTIONS, h),
    ensures
        results[i]@ == h,
        preimages.len() == 0 ==> results.len() == 0,
{
    hash_is_deterministic(engine, preimages[i]@, DEFAULT_LOOPS, DEFAULT_INSTRUCTIONS, results[i]@, h);
}

} // verus!
