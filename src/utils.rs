use vstd::prelude::*;

verus! {

/// The hash of a word sequence under the engine's fixed-seed hasher.
pub uninterp spec fn seeded_hash(words: Seq<u64>) -> u64;

/// Relies on ahash::RandomState::with_seeds and RandomState::hash_one: all
/// states built from the same four seeds produce identical hashers, so the
/// result depends on the words alone.
#[verifier::external_body]
pub fn hash(words: &[u64]) -> (r: u64)
    ensures
        r == seeded_hash(words@),
{
    ahash::RandomState::with_seeds(1, 2, 3, 4).hash_one(words)
}

} // verus!
