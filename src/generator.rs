//! A seeded coherent-noise generator.
use noise::{Perlin, ScalePoint};
use vstd::prelude::*;

verus! {

/// Perlin noise from the `noise` crate; opaque here, carried through.
#[verifier::external_type_specification]
#[verifier::external_body]
pub struct ExPerlin(Perlin);

/// The `noise` crate's coordinate-scaling adapter; opaque here, carried through.
#[verifier::external_type_specification]
#[verifier::external_body]
#[verifier::reject_recursive_types(Source)]
pub struct ExScalePoint<Source>(ScalePoint<Source>);

/// Relies on noise::Perlin::new: builds the Perlin permutation table from the
/// seed; it does not panic.
pub assume_specification[ Perlin::new ](seed: u32) -> Perlin;

/// Relies on noise::ScalePoint::new: wraps a source with unit scale factors;
/// it does not panic.
pub assume_specification<Source>[ ScalePoint::<Source>::new ](source: Source) -> ScalePoint<Source>;

/// Relies on the `Clone` that noise::ScalePoint derives: a field-by-field copy;
/// it does not panic.
pub assume_specification<Source: Clone>[ <ScalePoint<Source> as Clone>::clone ](
    sp: &ScalePoint<Source>,
) -> ScalePoint<Source>;

/// A coherent-noise generator, identified by the seed its Perlin primitive was
/// built from.
///
/// The primitive is built once, in `new`, from `seed`, and never changes; two
/// generators with the same seed sample the same noise field.
#[derive(Clone)]
pub struct Noise {
    seed: u32,
    generator: ScalePoint<Perlin>,
}

impl View for Noise {
    type V = u32;

    /// The seed the primitive was built from.
    closed spec fn view(&self) -> u32 {
        self.seed
    }
}

impl Default for Noise {
    fn default() -> (r: Noise)
        ensures
            r@ == 0,
    {
        Noise::new(0)
    }
}

impl Noise {
    /// A generator whose primitive is built from exactly `seed`.
    pub fn new(seed: u32) -> (r: Noise)
        ensures
            r@ == seed,
    {
        Noise { seed, generator: ScalePoint::new(Perlin::new(seed)) }
    }

    /// A generator whose seed is `base_seed + key` with wraparound.
    pub fn from_base(base_seed: u32, key: u32) -> (r: Noise)
        ensures
            r@ == (base_seed + key) % 0x1_0000_0000,
    {
        let combined = base_seed.wrapping_add(key);
        Noise::new(combined)
    }

    /// The seed the primitive was built from.
    pub fn seed(&self) -> (r: u32)
        ensures
            r == self@,
    {
        self.seed
    }

    /// The Perlin primitive, for sampling.
    pub fn generator(&self) -> &ScalePoint<Perlin> {
        &self.generator
    }
}

} // verus!
