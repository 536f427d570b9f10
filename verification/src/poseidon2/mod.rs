//! Poseidon2 sponge over M31.

pub mod params;
pub mod model;
pub mod permutation;
pub mod sponge;
