//! The hash algorithms computed by outside crates: SHA-256, BLAKE3,
//! Keccak-256 and BLAKE2s.
//!
//! Each digest function is named by a spec function without a body; the
//! wrappers below are the only places that call the crates.

use vstd::prelude::*;
use sha2::Digest;
use tiny_keccak::Hasher;
use crate::alg_id::HashAlgId;
use crate::algorithm::HashAlgorithm;

verus! {

/// The SHA-256 digest of a byte string, as computed by `sha2::Sha256` (`Digest::update` then
/// `Digest::finalize`).
pub uninterp spec fn sha256_spec(data: Seq<u8>) -> Seq<u8>;

/// Calls `sha2::Sha256` (`Digest::update` then `Digest::finalize`) on `data`. The contract
/// claims that the result is the SHA-256 digest of `data`, and that it is 32 bytes long (a
/// `GenericArray` of 32 bytes).
#[verifier::external_body]
fn sha256_digest(data: &[u8]) -> (r: Vec<u8>)
    ensures
        r@ == sha256_spec(data@),
        r@.len() == 32,
{
    let mut hasher = ::sha2::Sha256::default();
    hasher.update(data);
    hasher.finalize().to_vec()
}

/// Calls `sha2::Sha256` with two `Digest::update` calls, which hash their inputs as one stream,
/// on `prefix` and `data`. The contract claims that the result is the SHA-256 digest of `prefix`
/// followed by `data`, 32 bytes long.
#[verifier::external_body]
fn sha256_digest_prefixed(prefix: &[u8], data: &[u8]) -> (r: Vec<u8>)
    ensures
        r@ == sha256_spec(prefix@ + data@),
        r@.len() == 32,
{
    let mut hasher = ::sha2::Sha256::default();
    hasher.update(prefix);
    hasher.update(data);
    hasher.finalize().to_vec()
}

/// SHA-256 hash algorithm.
#[derive(Default, Clone)]
pub struct Sha256 {}

impl HashAlgorithm for Sha256 {
    open spec fn spec_id(&self) -> u8 {
        1
    }

    open spec fn spec_hash(&self, data: Seq<u8>) -> Seq<u8> {
        sha256_spec(data)
    }

    open spec fn spec_hash_prefixed(&self, prefix: Seq<u8>, data: Seq<u8>) -> Seq<u8> {
        sha256_spec(prefix + data)
    }

    fn id(&self) -> (r: HashAlgId) {
        HashAlgId::SHA256()
    }

    fn hash(&self, data: &[u8]) -> (r: crate::hash::Hash)
        ensures
            r@ == sha256_spec(data@),
            r@.len() == 32,
    {
        let digest = sha256_digest(data);
        crate::hash::Hash::new(digest.as_slice())
    }

    fn hash_prefixed(&self, prefix: &[u8], data: &[u8]) -> (r: crate::hash::Hash)
        ensures
            r@ == sha256_spec(prefix@ + data@),
            r@.len() == 32,
    {
        let digest = sha256_digest_prefixed(prefix, data);
        crate::hash::Hash::new(digest.as_slice())
    }
}

/// The BLAKE3 digest of a byte string, as computed by `blake3::hash`.
pub uninterp spec fn blake3_spec(data: Seq<u8>) -> Seq<u8>;

/// Calls `blake3::hash` on `data`. The contract claims that the result is the
/// BLAKE3 digest of `data`, and that it is 32 bytes long (a `blake3::Hash` of 32 bytes).
#[verifier::external_body]
fn blake3_digest(data: &[u8]) -> (r: Vec<u8>)
    ensures
        r@ == blake3_spec(data@),
        r@.len() == 32,
{
    ::blake3::hash(data).as_bytes().to_vec()
}

/// Calls `blake3::Hasher` with two `update` calls, which the crate documents as hashing the
/// concatenated input (the same as `blake3::hash` of it), on `prefix` and `data`. The contract
/// claims that the result is the BLAKE3 digest of `prefix` followed by `data`, 32 bytes long.
#[verifier::external_body]
fn blake3_digest_prefixed(prefix: &[u8], data: &[u8]) -> (r: Vec<u8>)
    ensures
        r@ == blake3_spec(prefix@ + data@),
        r@.len() == 32,
{
    let mut hasher = ::blake3::Hasher::new();
    hasher.update(prefix);
    hasher.update(data);
    hasher.finalize().as_bytes().to_vec()
}

/// BLAKE3 hash algorithm.
#[derive(Default, Clone)]
pub struct Blake3 {}

impl HashAlgorithm for Blake3 {
    open spec fn spec_id(&self) -> u8 {
        2
    }

    open spec fn spec_hash(&self, data: Seq<u8>) -> Seq<u8> {
        blake3_spec(data)
    }

    open spec fn spec_hash_prefixed(&self, prefix: Seq<u8>, data: Seq<u8>) -> Seq<u8> {
        blake3_spec(prefix + data)
    }

    fn id(&self) -> (r: HashAlgId) {
        HashAlgId::BLAKE3()
    }

    fn hash(&self, data: &[u8]) -> (r: crate::hash::Hash)
        ensures
            r@ == blake3_spec(data@),
            r@.len() == 32,
    {
        let digest = blake3_digest(data);
        crate::hash::Hash::new(digest.as_slice())
    }

    fn hash_prefixed(&self, prefix: &[u8], data: &[u8]) -> (r: crate::hash::Hash)
        ensures
            r@ == blake3_spec(prefix@ + data@),
            r@.len() == 32,
    {
        let digest = blake3_digest_prefixed(prefix, data);
        crate::hash::Hash::new(digest.as_slice())
    }
}

/// The Keccak-256 digest of a byte string, as computed by `tiny_keccak::Keccak::v256`
/// (`Hasher::update` then `Hasher::finalize` into 32 bytes).
pub uninterp spec fn keccak256_spec(data: Seq<u8>) -> Seq<u8>;

/// Calls `tiny_keccak::Keccak::v256` (`Hasher::update` then `Hasher::finalize` into 32 bytes) on
/// `data`. The contract claims that the result is the Keccak-256 digest of `data`, and that it
/// is 32 bytes long (the 32-byte buffer it fills).
#[verifier::external_body]
fn keccak256_digest(data: &[u8]) -> (r: Vec<u8>)
    ensures
        r@ == keccak256_spec(data@),
        r@.len() == 32,
{
    let mut hasher = ::tiny_keccak::Keccak::v256();
    hasher.update(data);
    let mut output = vec![0u8; 32];
    hasher.finalize(&mut output);
    output
}

/// Calls `tiny_keccak::Keccak::v256` with two `Hasher::update` calls, which absorb their inputs
/// as one stream, on `prefix` and `data`. The contract claims that the result is the Keccak-256
/// digest of `prefix` followed by `data`, 32 bytes long.
#[verifier::external_body]
fn keccak256_digest_prefixed(prefix: &[u8], data: &[u8]) -> (r: Vec<u8>)
    ensures
        r@ == keccak256_spec(prefix@ + data@),
        r@.len() == 32,
{
    let mut hasher = ::tiny_keccak::Keccak::v256();
    hasher.update(prefix);
    hasher.update(data);
    let mut output = vec![0u8; 32];
    hasher.finalize(&mut output);
    output
}

/// Keccak-256 hash algorithm.
#[derive(Default, Clone)]
pub struct Keccak256 {}

impl HashAlgorithm for Keccak256 {
    open spec fn spec_id(&self) -> u8 {
        3
    }

    open spec fn spec_hash(&self, data: Seq<u8>) -> Seq<u8> {
        keccak256_spec(data)
    }

    open spec fn spec_hash_prefixed(&self, prefix: Seq<u8>, data: Seq<u8>) -> Seq<u8> {
        keccak256_spec(prefix + data)
    }

    fn id(&self) -> (r: HashAlgId) {
        HashAlgId::KECCAK256()
    }

    fn hash(&self, data: &[u8]) -> (r: crate::hash::Hash)
        ensures
            r@ == keccak256_spec(data@),
            r@.len() == 32,
    {
        let digest = keccak256_digest(data);
        crate::hash::Hash::new(digest.as_slice())
    }

    fn hash_prefixed(&self, prefix: &[u8], data: &[u8]) -> (r: crate::hash::Hash)
        ensures
            r@ == keccak256_spec(prefix@ + data@),
            r@.len() == 32,
    {
        let digest = keccak256_digest_prefixed(prefix, data);
        crate::hash::Hash::new(digest.as_slice())
    }
}

/// The BLAKE2s-256 digest of a byte string, as computed by `blake2::Blake2s256`
/// (`Digest::update` then `Digest::finalize`).
pub uninterp spec fn blake2s_spec(data: Seq<u8>) -> Seq<u8>;

/// Calls `blake2::Blake2s256` (`Digest::update` then `Digest::finalize`) on `data`. The contract
/// claims that the result is the BLAKE2s-256 digest of `data`, and that it is 32 bytes long (a
/// `GenericArray` of 32 bytes).
#[verifier::external_body]
fn blake2s_digest(data: &[u8]) -> (r: Vec<u8>)
    ensures
        r@ == blake2s_spec(data@),
        r@.len() == 32,
{
    let mut hasher = ::blake2::Blake2s256::default();
    hasher.update(data);
    hasher.finalize().to_vec()
}

/// Calls `blake2::Blake2s256` with two `Digest::update` calls, which hash their inputs as one
/// stream, on `prefix` and `data`. The contract claims that the result is the BLAKE2s-256 digest
/// of `prefix` followed by `data`, 32 bytes long.
#[verifier::external_body]
fn blake2s_digest_prefixed(prefix: &[u8], data: &[u8]) -> (r: Vec<u8>)
    ensures
        r@ == blake2s_spec(prefix@ + data@),
        r@.len() == 32,
{
    let mut hasher = ::blake2::Blake2s256::default();
    hasher.update(prefix);
    hasher.update(data);
    hasher.finalize().to_vec()
}

/// BLAKE2s-256 hash algorithm.
#[derive(Default, Clone)]
pub struct Blake2s {}

impl HashAlgorithm for Blake2s {
    open spec fn spec_id(&self) -> u8 {
        4
    }

    open spec fn spec_hash(&self, data: Seq<u8>) -> Seq<u8> {
        blake2s_spec(data)
    }

    open spec fn spec_hash_prefixed(&self, prefix: Seq<u8>, data: Seq<u8>) -> Seq<u8> {
        blake2s_spec(prefix + data)
    }

    fn id(&self) -> (r: HashAlgId) {
        HashAlgId::BLAKE2S()
    }

    fn hash(&self, data: &[u8]) -> (r: crate::hash::Hash)
        ensures
            r@ == blake2s_spec(data@),
            r@.len() == 32,
    {
        let digest = blake2s_digest(data);
        crate::hash::Hash::new(digest.as_slice())
    }

    fn hash_prefixed(&self, prefix: &[u8], data: &[u8]) -> (r: crate::hash::Hash)
        ensures
            r@ == blake2s_spec(prefix@ + data@),
            r@.len() == 32,
    {
        let digest = blake2s_digest_prefixed(prefix, data);
        crate::hash::Hash::new(digest.as_slice())
    }
}

} // verus!
