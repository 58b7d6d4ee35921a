//! The world's noise source: one seed, fanned out into keyed generators.
use vstd::prelude::*;

use crate::generator::Noise;
use crate::seed::{combine, hash_combine, lemma_combine_injective_left, lemma_combine_injective_right};

verus! {

/// Seed of the generator that `create(key)` returns from a source seeded with `seed`.
pub open spec fn keyed_seed(seed: u32, key: u32) -> u32 {
    combine(seed, key)
}

/// Seed of the generator that `create_salted(key, salt)` returns from a source
/// seeded with `seed`.
pub open spec fn salted_seed(seed: u32, key: u32, salt: u32) -> u32 {
    combine(seed, combine(key, salt))
}

/// The root of all noise in a world: holds the world seed and derives a
/// generator for each caller-chosen key.
#[derive(Clone, Copy, Debug)]
pub struct NoiseSource {
    seed: u32,
}

impl View for NoiseSource {
    type V = u32;

    /// The world seed.
    closed spec fn view(&self) -> u32 {
        self.seed
    }
}

impl NoiseSource {
    /// A source with the given world seed.
    pub fn new(seed: u32) -> (r: NoiseSource)
        ensures
            r@ == seed,
    {
        NoiseSource { seed }
    }

    /// The current world seed.
    pub fn seed(&self) -> (r: u32)
        ensures
            r == self@,
    {
        self.seed
    }

    /// Replaces the world seed; generators created earlier keep their own seed.
    pub fn reseed(&mut self, seed: u32)
        ensures
            final(self)@ == seed,
    {
        self.seed = seed;
    }

    /// The generator for `key`, seeded with the mix of the world seed and `key`.
    pub fn create(&self, key: u32) -> (r: Noise)
        ensures
            r@ == keyed_seed(self@, key),
    {
        let derived = hash_combine(self.seed, key);
        Noise::new(derived)
    }

    /// A further generator for `key`, one per `salt`: seeded with the mix of the
    /// world seed and the mix of `key` and `salt`.
    pub fn create_salted(&self, key: u32, salt: u32) -> (r: Noise)
        ensures
            r@ == salted_seed(self@, key, salt),
    {
        let combined = hash_combine(key, salt);
        let derived = hash_combine(self.seed, combined);
        Noise::new(derived)
    }
}

/// Two sources with the same seed hand out the same generator for every key,
/// and for every key and salt.
pub proof fn lemma_same_seed_same_generators(a: NoiseSource, b: NoiseSource, key: u32, salt: u32)
    requires
        a@ == b@,
    ensures
        keyed_seed(a@, key) == keyed_seed(b@, key),
        salted_seed(a@, key, salt) == salted_seed(b@, key, salt),
{
}

/// Sources with different seeds hand out differently seeded generators for the
/// same key.
pub proof fn lemma_distinct_seeds_distinct_generators(seed1: u32, seed2: u32, key: u32)
    requires
        seed1 != seed2,
    ensures
        keyed_seed(seed1, key) != keyed_seed(seed2, key),
{
    lemma_combine_injective_left(seed1, seed2, key);
}

/// One source hands out differently seeded generators for different keys.
pub proof fn lemma_distinct_keys_distinct_generators(seed: u32, key1: u32, key2: u32)
    requires
        key1 != key2,
    ensures
        keyed_seed(seed, key1) != keyed_seed(seed, key2),
{
    lemma_combine_injective_right(seed, key1, key2);
}

/// One source hands out differently seeded generators for one key under
/// different salts.
pub proof fn lemma_distinct_salts_distinct_generators(seed: u32, key: u32, salt1: u32, salt2: u32)
    requires
        salt1 != salt2,
    ensures
        salted_seed(seed, key, salt1) != salted_seed(seed, key, salt2),
{
    lemma_combine_injective_right(key, salt1, salt2);
    lemma_combine_injective_right(seed, combine(key, salt1), combine(key, salt2));
}

/// Once a source is reseeded to a seed other than its own (`reseed` leaves
/// `after@` equal to the new seed), every key yields a generator seeded
/// differently from the one the key yielded before.
pub proof fn lemma_reseed_changes_generators(before: NoiseSource, after: NoiseSource, key: u32)
    requires
        before@ != after@,
    ensures
        keyed_seed(after@, key) != keyed_seed(before@, key),
{
    lemma_combine_injective_left(after@, before@, key);
}

} // verus!
