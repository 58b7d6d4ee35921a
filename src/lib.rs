//! Deterministic, reproducible seeds for procedural noise: one world seed fans
//! out into many independently keyed Perlin generators.
pub mod generator;
pub mod plugin;
pub mod prelude;
pub mod seed;
pub mod source;

pub use generator::Noise;
pub use plugin::{seed_from_global, NoisePlugin};
pub use seed::hash_combine;
pub use source::NoiseSource;
