//! Where the world's noise source gets its seed at startup.
use vstd::prelude::*;

verus! {

/// How the host sets up the world's noise source: with an explicit seed, or
/// with one taken from the host's global 64-bit randomness seed at startup.
#[derive(Clone, Copy, Debug)]
pub struct NoisePlugin {
    seed: Option<u32>,
}

impl View for NoisePlugin {
    type V = Option<u32>;

    /// The explicit seed, if there is one.
    closed spec fn view(&self) -> Option<u32> {
        self.seed
    }
}

impl NoisePlugin {
    /// Set up the source with an explicit seed.
    pub fn seeded(seed: u32) -> (r: NoisePlugin)
        ensures
            r@ == Some(seed),
    {
        NoisePlugin { seed: Some(seed) }
    }

    /// Set up the source from the global randomness seed at startup.
    pub fn from_global_rng() -> (r: NoisePlugin)
        ensures
            r@ == None::<u32>,
    {
        NoisePlugin { seed: None }
    }

    /// The explicit seed, or `None` where the global seed is to be used.
    pub fn explicit_seed(&self) -> (r: Option<u32>)
        ensures
            r == self@,
    {
        self.seed
    }
}

/// The world seed taken from a global 64-bit seed: its low 32 bits.
pub fn seed_from_global(global_seed: u64) -> (r: u32)
    ensures
        r == global_seed % 0x1_0000_0000,
{
    let low = global_seed & 0xffff_ffff;
    assert(low == global_seed % 0x1_0000_0000 && low < 0x1_0000_0000) by (bit_vector)
        requires
            low == global_seed & 0xffff_ffff,
    ;
    low as u32
}

} // verus!
