use vstd::prelude::*;

pub mod batch;
pub mod difficulty;
pub mod engine;
pub mod hexenc;
pub mod miner;
pub mod salt;

pub use batch::{hash_batch, hash_batch_with_params};
pub use difficulty::meets_difficulty;
pub use engine::{hash, hash_with_params, DEFAULT_INSTRUCTIONS, DEFAULT_LOOPS};
pub use miner::{mine_batch, mine_batch_with_seed, try_candidate, MiningResult};
pub use salt::{build_salt, candidate_salt, nonce_at, nonce_bytes};

verus! {

} // verus!
