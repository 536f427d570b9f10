//! Hash types and algorithms: hash values, algorithm identifiers, the hash
//! provider, blinders, the built-in algorithms (SHA-256, BLAKE3,
//! Keccak-256, BLAKE2s and a native Poseidon2 over M31) and the decisions
//! of plaintext hash commitments.

pub mod alg_id;
pub mod algorithm;
pub mod blinder;
pub mod commit;
pub mod digests;
pub mod hash;
pub mod laws;
pub mod m31;
pub mod poseidon2;
pub mod provider;

pub use alg_id::{HashAlgId, HashProviderError};
pub use algorithm::HashAlgorithm;
pub use blinder::{Blinded, Blinder, M31BlinderSampler};
pub use digests::{Blake2s, Blake3, Keccak256, Sha256};
pub use hash::TypedHash;
pub use poseidon2::sponge::Poseidon2;
pub use provider::HashProvider;
