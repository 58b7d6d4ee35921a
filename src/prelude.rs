//! The items most callers need.
pub use crate::generator::Noise;
pub use crate::plugin::NoisePlugin;
pub use crate::source::NoiseSource;
