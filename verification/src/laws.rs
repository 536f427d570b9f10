//! Properties that relate several functions of the library.

use vstd::prelude::*;
use crate::alg_id::builtin_ids;
use crate::algorithm::HashAlgorithm;
use crate::commit::{hasher_for, seen_before, step_for, CommitHasher};
use crate::digests::{
    blake2s_spec, blake3_spec, keccak256_spec, sha256_spec, Blake2s, Blake3, Keccak256, Sha256,
};
use crate::hash::{hash_from_bytes, MAX_LEN};
use crate::poseidon2::sponge::Poseidon2;
use crate::poseidon2::model::{
    absorb_spec, absorbed, block, block_count, le_byte, poseidon2_digest,
};
use crate::provider::{default_alg_ids, default_algorithms, model_of, HashProvider};

verus! {

/// After `set_algorithm(id, algorithm)`, `get(id)` succeeds and gives an
/// algorithm that reports the identifier `algorithm` reports, whether `id`
/// was registered before (an override) or not (an addition); every other
/// identifier keeps its registration, or its absence.
pub proof fn law_get_after_set(
    before: HashProvider,
    after: HashProvider,
    id: crate::alg_id::HashAlgId,
    reported: u8,
    other: crate::alg_id::HashAlgId,
)
    requires
        after.alg_ids() == before.alg_ids().insert(id@, reported),
    ensures
        after.algorithms().contains(id@),
        after.alg_ids()[id@] == reported,
        other@ != id@ ==> (after.algorithms().contains(other@) <==> before.algorithms().contains(
            other@,
        )),
        other@ != id@ && before.algorithms().contains(other@) ==> after.alg_ids()[other@]
            == before.alg_ids()[other@],
{
}

/// The default provider knows exactly the built-in algorithms, each under
/// its own identifier, so no identifier made by `HashAlgId::new` is
/// registered in it.
pub proof fn law_default_provider_is_builtin(id: u8)
    ensures
        default_algorithms() == builtin_ids(),
        default_alg_ids().dom() == default_algorithms(),
        default_alg_ids().contains_key(id) ==> default_alg_ids()[id] == id,
        id >= 128 ==> !default_algorithms().contains(id),
{
    assert(default_alg_ids().dom() =~= default_algorithms());
}

/// The algorithms that can be committed to are exactly those of the
/// default provider.
pub proof fn law_commit_supports_default_algorithms(id: u8)
    ensures
        hasher_for(id) is Some <==> default_algorithms().contains(id),
{
}

/// Each built-in algorithm hashes `prefix` followed by `data` exactly as it
/// hashes their concatenation.
pub proof fn law_prefixed_is_concatenation(prefix: Seq<u8>, data: Seq<u8>)
    ensures
        (Sha256 {}).spec_hash_prefixed(prefix, data) == (Sha256 {}).spec_hash(prefix + data),
        (Blake3 {}).spec_hash_prefixed(prefix, data) == (Blake3 {}).spec_hash(prefix + data),
        (Keccak256 {}).spec_hash_prefixed(prefix, data) == (Keccak256 {}).spec_hash(prefix + data),
        (Blake2s {}).spec_hash_prefixed(prefix, data) == (Blake2s {}).spec_hash(prefix + data),
        (Poseidon2 {}).spec_hash_prefixed(prefix, data) == (Poseidon2 {}).spec_hash(prefix + data),
{
}

/// A hash value turned into bytes and back is the same value, and it is
/// never longer than [`MAX_LEN`].
pub proof fn law_bytes_roundtrip(h: crate::hash::Hash)
    requires
        h.is_canonical(),
    ensures
        h@.len() <= MAX_LEN,
        hash_from_bytes(h@) == Ok::<crate::hash::Hash, &'static str>(h),
{
    crate::hash::Hash::lemma_canonical_len(h);
    let g = choose|g: crate::hash::Hash| g@ == h@ && g.is_canonical();
    crate::hash::Hash::lemma_canonical_unique(h, g);
}

/// Two hash values are equal exactly when they hold the same bytes.
pub proof fn law_hash_equality(a: crate::hash::Hash, b: crate::hash::Hash)
    requires
        a.is_canonical(),
        b.is_canonical(),
    ensures
        a == b <==> a@ == b@,
        vstd::std_specs::cmp::PartialEqSpec::eq_spec(&a, &b) <==> a@ == b@,
{
    if a@ == b@ {
        crate::hash::Hash::lemma_canonical_unique(a, b);
    }
}

/// Inputs whose blocks agree up to block `k` absorb to the same state.
proof fn lemma_absorbed_agree(a: Seq<u8>, b: Seq<u8>, k: int)
    requires
        forall|j: int| 0 <= j < k ==> #[trigger] block(a, j) == block(b, j),
    ensures
        absorbed(a, k) == absorbed(b, k),
    decreases k,
{
    if k > 0 {
        lemma_absorbed_agree(a, b, k - 1);
    }
}

/// Poseidon2 zero-pads the last block: appending zero bytes that stay within
/// the last block of a non-empty input, or a block of zeros to an empty
/// input, leaves the digest unchanged.
pub proof fn law_poseidon2_zero_padding(data: Seq<u8>, extra: nat)
    requires
        data.len() % 8 != 0 || data.len() == 0,
        data.len() % 8 + extra <= 8,
    ensures
        poseidon2_digest(data + Seq::new(extra, |i: int| 0u8)) == poseidon2_digest(data),
{
    let padded = data + Seq::new(extra, |i: int| 0u8);
    let n = block_count(data.len()) as int;
    assert(block_count(padded.len()) as int == n);
    assert forall|j: int| 0 <= j < n implies #[trigger] block(padded, j) == block(data, j) by {
        assert(block(padded, j) =~= block(data, j));
    }
    lemma_absorbed_agree(padded, data, n);
}

/// After `set_algorithm(id, algorithm)`, the registry holds `algorithm`
/// itself under `id`: what `get(id)` returns reports `algorithm`'s
/// identifier and hashes every input, plain or prefixed, exactly as
/// `algorithm` does, whatever was registered under `id` before.
pub proof fn law_set_then_get_is_the_algorithm<A: HashAlgorithm>(
    before: HashProvider,
    after: HashProvider,
    id: crate::alg_id::HashAlgId,
    algorithm: A,
    prefix: Seq<u8>,
    data: Seq<u8>,
)
    requires
        after.registry() == before.registry().insert(id@, model_of(&algorithm)),
    ensures
        after.registry().contains_key(id@),
        after.registry()[id@].0 == algorithm.spec_id(),
        (after.registry()[id@].1)(data) == algorithm.spec_hash(data),
        (after.registry()[id@].2)(prefix, data) == algorithm.spec_hash_prefixed(prefix, data),
{
}

/// The built-in digests are of the whole input, however long: each
/// algorithm's digest is the named digest function of all the bytes, and
/// its prefixed digest is that of the prefix followed by all the bytes.
pub proof fn law_digests_cover_whole_input(prefix: Seq<u8>, data: Seq<u8>)
    ensures
        (Sha256 {}).spec_hash(data) == sha256_spec(data),
        (Sha256 {}).spec_hash_prefixed(prefix, data) == sha256_spec(prefix + data),
        (Blake3 {}).spec_hash(data) == blake3_spec(data),
        (Blake3 {}).spec_hash_prefixed(prefix, data) == blake3_spec(prefix + data),
        (Keccak256 {}).spec_hash(data) == keccak256_spec(data),
        (Keccak256 {}).spec_hash_prefixed(prefix, data) == keccak256_spec(prefix + data),
        (Blake2s {}).spec_hash(data) == blake2s_spec(data),
        (Blake2s {}).spec_hash_prefixed(prefix, data) == blake2s_spec(prefix + data),
        (Poseidon2 {}).spec_hash(data) == poseidon2_digest(data),
        (Poseidon2 {}).spec_hash_prefixed(prefix, data) == poseidon2_digest(prefix + data),
{
}

/// The Poseidon2 sponge absorbs every block of its input, however long the
/// input: the state after `k` blocks is the state after `k - 1` blocks with
/// block `k - 1` absorbed, every byte of the input lies in one of the
/// blocks that the digest absorbs, and the digest is the encoding of the
/// state after all those blocks.
pub proof fn law_poseidon2_absorbs_every_block(data: Seq<u8>, k: int, i: int)
    ensures
        k >= 1 ==> absorbed(data, k) == absorb_spec(absorbed(data, k - 1), block(data, k - 1)),
        0 <= i < data.len() ==> i / 8 < block_count(data.len()) && block(data, i / 8)[i % 8]
            == data[i] as u32,
        poseidon2_digest(data) == Seq::new(
            32,
            |n: int| le_byte(absorbed(data, block_count(data.len()) as int)[n / 4], n % 4),
        ),
{
    if 0 <= i < data.len() {
        assert(8 * (i / 8) + i % 8 == i);
    }
}

/// A commitment hasher is created afresh exactly for Poseidon2 and for the
/// first request of every other algorithm; a later request with the same
/// algorithm (other than Poseidon2) reuses the earlier hasher.
pub proof fn law_commit_hashers_reused(algs: Seq<crate::alg_id::HashAlgId>, i: int, j: int)
    requires
        0 <= i < algs.len(),
        hasher_for(algs[i]@) is Some,
    ensures
        step_for(algs, i).hasher == hasher_for(algs[i]@).unwrap(),
        algs[i]@ == 5 ==> step_for(algs, i).hasher == CommitHasher::Poseidon2 && step_for(algs, i).fresh,
        0 <= j < i && algs[j]@ == algs[i]@ && algs[i]@ != 5 ==> !step_for(algs, i).fresh,
        (forall|k: int| 0 <= k < i ==> (#[trigger] algs[k])@ != algs[i]@) ==> step_for(algs, i).fresh,
{
    if 0 <= j < i && algs[j]@ == algs[i]@ {
        assert(seen_before(algs, i));
    }
}

} // verus!
