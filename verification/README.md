# tlsn_hash

Hash values, algorithm identifiers, the hash provider, blinders and the
built-in hash algorithms, verified with Verus.

- `src/` is the verified library:
  - `alg_id.rs`: `HashAlgId` and `HashProviderError`;
  - `hash.rs`: `Hash` (at most 64 bytes, zero-padded) and `TypedHash`;
  - `algorithm.rs`: the `HashAlgorithm` trait;
  - `digests.rs`: SHA-256, BLAKE3, Keccak-256 and BLAKE2s, computed by
    their crates behind small trusted wrappers;
  - `m31.rs` and `poseidon2/`: a native Poseidon2 sponge over M31, proved
    against its mathematical definition;
  - `provider.rs`: `HashProvider`;
  - `blinder.rs`: `Blinder`, `Blinded` and the M31 blinder sampler;
  - `commit.rs`: the decisions of plaintext hash commitments;
  - `laws.rs`: properties relating several functions.
- `app/` holds what needs outside derives and traits: the `serde` copies of
  the types, `Display` and `Error` impls, and the random sampling loops.
- `tests/` runs the library on concrete values.
