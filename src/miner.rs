use vstd::prelude::*;
use rayon::iter::{IntoParallelIterator, ParallelIterator};
use crate::difficulty::{meets, meets_difficulty, prefix_of};
use crate::engine::{
    accepts_all, deterministic, reported_digest_is_unique, reports, DEFAULT_INSTRUCTIONS,
    DEFAULT_LOOPS,
};
use crate::salt::{candidate_salt, candidate_salt_of, random_seed, salt_of};

verus! {

/// The outcome of searching one batch: a qualifying salt, or none in this batch.
#[derive(Debug, Clone, PartialEq, Eq)]
pub enum MiningResult {
    Found(String),
    NotFound,
}

impl MiningResult {
    /// The salt found, or the empty string when the batch held none.
    pub fn into_salt(self) -> (r: String)
        ensures
            match self {
                MiningResult::Found(s) => r == s,
                MiningResult::NotFound => r@ == Seq::<char>::empty(),
            },
    {
        match self {
            MiningResult::Found(s) => s,
            MiningResult::NotFound => String::new(),
        }
    }
}

/// The engine reports, at the default tuning, a digest for `salt` that meets `mask`.
pub open spec fn accepted<E: Fn(&String, u32, u32) -> [u8; 64]>(
    engine: E,
    salt: Seq<char>,
    mask: u32,
) -> bool {
    exists|d: Seq<u8>|
        #[trigger] reports(engine, salt, DEFAULT_LOOPS, DEFAULT_INSTRUCTIONS, d) && meets(
            prefix_of(d),
            mask,
        )
}

/// The engine reports, at the default tuning, a digest for `salt` that does not meet `mask`.
pub open spec fn rejected<E: Fn(&String, u32, u32) -> [u8; 64]>(
    engine: E,
    salt: Seq<char>,
    mask: u32,
) -> bool {
    exists|d: Seq<u8>|
        #[trigger] reports(engine, salt, DEFAULT_LOOPS, DEFAULT_INSTRUCTIONS, d) && !meets(
            prefix_of(d),
            mask,
        )
}

/// Every one of the first `batch_size` candidates drawn from `seed` is rejected.
pub open spec fn batch_rejected<E: Fn(&String, u32, u32) -> [u8; 64]>(
    engine: E,
    seed: u64,
    preimage_static: Seq<char>,
    mask: u32,
    batch_size: u32,
) -> bool {
    forall|i: u32|
        i < batch_size ==> rejected(
            engine,
            #[trigger] candidate_salt_of(seed, i, preimage_static),
            mask,
        )
}

/// Relies on rayon's `into_par_iter().find_map_any(f)` over `0..n`: it returns `Some` only
/// with a value that `f` returned for some index below `n`, and `None` only when `f`
/// returned `None` for every index below `n`.
#[verifier::external_body]
fn par_find_map_any<F: Fn(u32) -> Option<String> + Sync + Send>(n: u32, f: F) -> (r: Option<
    String,
>)
    requires
        forall|i: u32| i < n ==> #[trigger] f.requires((i,)),
    ensures
        r matches Some(s) ==> exists|i: u32| i < n && #[trigger] f.ensures((i,), Some(s)),
        r is None ==> forall|i: u32| i < n ==> #[trigger] f.ensures((i,), None::<String>),
{
    (0..n).into_par_iter().find_map_any(f)
}

/// Hashes candidate `index` of the batch drawn from `seed`, and returns its salt when the
/// digest meets `difficulty_mask`.
pub fn try_candidate<E: Fn(&String, u32, u32) -> [u8; 64]>(
    engine: &E,
    seed: u64,
    index: u32,
    preimage_static: &str,
    difficulty_mask: u32,
) -> (o: Option<String>)
    requires
        accepts_all(*engine),
    ensures
        o matches Some(s) ==> s@ == candidate_salt_of(seed, index, preimage_static@) && accepted(
            *engine,
            s@,
            difficulty_mask,
        ),
        o is None ==> rejected(
            *engine,
            candidate_salt_of(seed, index, preimage_static@),
            difficulty_mask,
        ),
{
    let salt = candidate_salt(seed, index, preimage_static);
    let digest = engine(&salt, DEFAULT_LOOPS, DEFAULT_INSTRUCTIONS);
    assert(reports(*engine, salt@, DEFAULT_LOOPS, DEFAULT_INSTRUCTIONS, digest@));
    if meets_difficulty(&digest, difficulty_mask) {
        Some(salt)
    } else {
        None
    }
}

/// Searches the `batch_size` candidates drawn from `seed` in parallel, and returns one whose
/// digest meets `difficulty_mask`, if any does. Which one, among several, is unspecified.
pub fn mine_batch_with_seed<E: Fn(&String, u32, u32) -> [u8; 64] + Sync>(
    engine: &E,
    seed: u64,
    preimage_static: &str,
    difficulty_mask: u32,
    batch_size: u32,
) -> (r: MiningResult)
    requires
        accepts_all(*engine),
    ensures
        r matches MiningResult::Found(s) ==> exists|i: u32|
            i < batch_size && s@ == #[trigger] candidate_salt_of(seed, i, preimage_static@)
                && accepted(*engine, s@, difficulty_mask),
        r matches MiningResult::Found(s) ==> s@.len() == 16 + preimage_static@.len(),
        r is NotFound ==> batch_rejected(
            *engine,
            seed,
            preimage_static@,
            difficulty_mask,
            batch_size,
        ),
{
    let attempt = |i: u32| -> (o: Option<String>)
        ensures
            o matches Some(s) ==> s@ == candidate_salt_of(seed, i, preimage_static@) && accepted(
                *engine,
                s@,
                difficulty_mask,
            ),
            o is None ==> rejected(
                *engine,
                candidate_salt_of(seed, i, preimage_static@),
                difficulty_mask,
            ),
        { try_candidate(engine, seed, i, preimage_static, difficulty_mask) };
    match par_find_map_any(batch_size, attempt) {
        Some(s) => MiningResult::Found(s),
        None => {
            assert forall|i: u32| i < batch_size implies rejected(
                *engine,
                #[trigger] candidate_salt_of(seed, i, preimage_static@),
                difficulty_mask,
            ) by {
                assert(attempt.ensures((i,), None::<String>));
            }
            MiningResult::NotFound
        },
    }
}

/// Searches one batch of `batch_size` candidates, numbered from a freshly drawn random seed,
/// for a salt whose digest meets `difficulty_mask`.
pub fn mine_batch<E: Fn(&String, u32, u32) -> [u8; 64] + Sync>(
    engine: &E,
    preimage_static: &str,
    difficulty_mask: u32,
    batch_size: u32,
) -> (r: MiningResult)
    requires
        accepts_all(*engine),
    ensures
        r matches MiningResult::Found(s) ==> accepted(*engine, s@, difficulty_mask) && exists|
            n: u64,
        | s@ == #[trigger] salt_of(n, preimage_static@),
        r matches MiningResult::Found(s) ==> s@.len() == 16 + preimage_static@.len(),
        r is NotFound ==> exists|seed: u64|
            #[trigger] batch_rejected(*engine, seed, preimage_static@, difficulty_mask, batch_size),
{
    let seed = random_seed();
    mine_batch_with_seed(engine, seed, preimage_static, difficulty_mask, batch_size)
}

/// A salt that the search returns meets the mask: the leading four bytes of its digest, as a
/// deterministic engine computes it at the default tuning, have no bit outside the mask.
pub proof fn found_salt_meets_mask<E: Fn(&String, u32, u32) -> [u8; 64]>(
    engine: E,
    salt: Seq<char>,
    mask: u32,
    digest: Seq<u8>,
)
    requires
        deterministic(engine),
        accepted(engine, salt, mask),
        reports(engine, salt, DEFAULT_LOOPS, DEFAULT_INSTRUCTIONS, digest),
    ensures
        meets(prefix_of(digest), mask),
{
    let d = choose|d: Seq<u8>|
        reports(engine, salt, DEFAULT_LOOPS, DEFAULT_INSTRUCTIONS, d) && meets(prefix_of(d), mask);
    reported_digest_is_unique(engine, salt, DEFAULT_LOOPS, DEFAULT_INSTRUCTIONS, d, digest);
}

/// Against a deterministic engine no salt is both accepted and rejected.
pub proof fn accepted_excludes_rejected<E: Fn(&String, u32, u32) -> [u8; 64]>(
    engine: E,
    salt: Seq<char>,
    mask: u32,
)
    requires
        deterministic(engine),
    ensures
        !(accepted(engine, salt, mask) && rejected(engine, salt, mask)),
{
    if accepted(engine, salt, mask) && rejected(engine, salt, mask) {
        let d1 = choose|d: Seq<u8>|
            reports(engine, salt, DEFAULT_LOOPS, DEFAULT_INSTRUCTIONS, d) && meets(prefix_of(d), mask);
        let d2 = choose|d: Seq<u8>|
            reports(engine, salt, DEFAULT_LOOPS, DEFAULT_INSTRUCTIONS, d) && !meets(prefix_of(d), mask);
        reported_digest_is_unique(engine, salt, DEFAULT_LOOPS, DEFAULT_INSTRUCTIONS, d1, d2);
    }
}

} // verus!
