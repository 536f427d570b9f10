//! Decisions of the plaintext hash commitment protocol: which hasher
//! commits to an algorithm, which blinder it needs, and how decoded hash
//! values become typed hashes.

use vstd::prelude::*;
use crate::alg_id::{HashAlgId, hex_u8};
use std::collections::HashSet;
use crate::hash::{TypedHash, MAX_LEN, TOO_LONG};

verus! {

broadcast use vstd::std_specs::hash::group_hash_axioms;

/// The hasher that commits to plaintext for a given algorithm.
#[derive(Debug, Clone, Copy, PartialEq, Eq, Structural)]
pub enum CommitHasher {
    /// SHA-256, reused across commitments.
    Sha256,
    /// BLAKE3, reused across commitments.
    Blake3,
    /// Keccak-256, reused across commitments.
    Keccak256,
    /// BLAKE2s, reused across commitments.
    Blake2s,
    /// Poseidon2, created afresh for each commitment.
    Poseidon2,
}

/// The hasher committing to `alg`, if the algorithm is supported.
pub open spec fn hasher_for(alg: u8) -> Option<CommitHasher> {
    if alg == 1 {
        Some(CommitHasher::Sha256)
    } else if alg == 2 {
        Some(CommitHasher::Blake3)
    } else if alg == 3 {
        Some(CommitHasher::Keccak256)
    } else if alg == 4 {
        Some(CommitHasher::Blake2s)
    } else if alg == 5 {
        Some(CommitHasher::Poseidon2)
    } else {
        None
    }
}

/// Error type for hash commitments.
#[derive(Debug, Clone, PartialEq, Eq)]
pub enum HashCommitError {
    /// The virtual machine failed; the message it gave.
    Vm(String),
    /// The hash could not be decoded.
    Decode,
    /// The decoded hash could not be converted into a hash value.
    Convert(&'static str),
    /// The algorithm is not supported for commitments.
    UnsupportedAlg {
        /// The unsupported algorithm.
        alg: HashAlgId,
    },
    /// The hasher failed; the message it gave.
    Hasher(String),
}

impl HashCommitError {
    /// The error message, as its `Display` form renders it.
    pub fn to_string(&self) -> (r: String)
        ensures
            self matches HashCommitError::Decode ==> r@ == "failed to decode hash"@,
            self matches HashCommitError::UnsupportedAlg { alg } ==> r@ == "unsupported hash algorithm: "@
                + hex_u8(alg@),
            self matches HashCommitError::Convert(e) ==> r@ == "failed to convert hash: "@ + e@,
            self matches HashCommitError::Vm(e) ==> r@ == "VM error: "@ + e@,
            self matches HashCommitError::Hasher(e) ==> r@ == "hasher error: "@ + e@,
    {
        match self {
            HashCommitError::Vm(e) => {
                let mut s = String::from_str("VM error: ");
                s.append(e.as_str());
                s
            },
            HashCommitError::Decode => String::from_str("failed to decode hash"),
            HashCommitError::Convert(e) => {
                let mut s = String::from_str("failed to convert hash: ");
                s.append(e);
                s
            },
            HashCommitError::UnsupportedAlg { alg } => {
                let mut s = String::from_str("unsupported hash algorithm: ");
                let hex = alg.to_string();
                s.append(hex.as_str());
                s
            },
            HashCommitError::Hasher(e) => {
                let mut s = String::from_str("hasher error: ");
                s.append(e.as_str());
                s
            },
        }
    }
}

/// Chooses the hasher that commits to plaintext hashed with `alg`; the
/// algorithms without a hasher are refused.
pub fn select_hasher(alg: HashAlgId) -> (r: Result<CommitHasher, HashCommitError>)
    ensures
        hasher_for(alg@) is Some ==> r == Ok::<CommitHasher, HashCommitError>(
            hasher_for(alg@).unwrap(),
        ),
        hasher_for(alg@) is None ==> r == Err::<CommitHasher, HashCommitError>(
            HashCommitError::UnsupportedAlg { alg },
        ),
{
    let id = alg.as_u8();
    if id == 1 {
        Ok(CommitHasher::Sha256)
    } else if id == 2 {
        Ok(CommitHasher::Blake3)
    } else if id == 3 {
        Ok(CommitHasher::Keccak256)
    } else if id == 4 {
        Ok(CommitHasher::Blake2s)
    } else if id == 5 {
        Ok(CommitHasher::Poseidon2)
    } else {
        Err(HashCommitError::UnsupportedAlg { alg })
    }
}

/// Whether a hasher is created once and reused for every commitment with
/// the same algorithm; Poseidon2 hashers are created for each commitment.
pub fn is_reused(hasher: CommitHasher) -> (r: bool)
    ensures
        r == (hasher != CommitHasher::Poseidon2),
{
    match hasher {
        CommitHasher::Poseidon2 => false,
        _ => true,
    }
}

/// How the hasher of one commitment is obtained.
#[derive(Debug, Clone, Copy, PartialEq, Eq, Structural)]
pub struct CommitStep {
    /// The hasher that computes the commitment.
    pub hasher: CommitHasher,
    /// Whether a new hasher is created for this commitment; otherwise the
    /// one created for an earlier commitment with the same algorithm is
    /// reused.
    pub fresh: bool,
}

/// Whether an earlier request than `i` has the same algorithm.
pub open spec fn seen_before(algs: Seq<HashAlgId>, i: int) -> bool {
    exists|j: int| 0 <= j < i && (#[trigger] algs[j])@ == algs[i]@
}

/// The step of request `i`: its hasher, created afresh for Poseidon2 and
/// for the first request of every other algorithm.
pub open spec fn step_for(algs: Seq<HashAlgId>, i: int) -> CommitStep {
    let hasher = hasher_for(algs[i]@).unwrap();
    CommitStep { hasher, fresh: hasher == CommitHasher::Poseidon2 || !seen_before(algs, i) }
}

/// Plans the hashers of a sequence of commitment requests, in order: each
/// algorithm's hasher is created once and reused by later requests with the
/// same algorithm, except Poseidon2, whose hasher is created for each
/// request. The first unsupported algorithm refuses the whole sequence.
pub fn plan_commitments(algs: &Vec<HashAlgId>) -> (r: Result<Vec<CommitStep>, HashCommitError>)
    ensures
        r is Ok <==> forall|i: int| 0 <= i < algs@.len() ==> (#[trigger] hasher_for(algs@[i]@)) is Some,
        r matches Ok(steps) ==> {
            &&& steps@.len() == algs@.len()
            &&& forall|i: int| 0 <= i < algs@.len() ==> #[trigger] steps@[i] == step_for(algs@, i)
            &&& forall|i: int| 0 <= i < algs@.len() ==> (#[trigger] steps@[i]).hasher == hasher_for(
                algs@[i]@,
            ).unwrap()
            &&& forall|i: int| 0 <= i < algs@.len() ==> ((#[trigger] steps@[i]).fresh <==> (
                algs@[i]@ == 5 || forall|j: int| 0 <= j < i ==> (#[trigger] algs@[j])@ != algs@[i]@))
        },
        r matches Err(e) ==> exists|i: int| #![trigger algs@[i]] 0 <= i < algs@.len() && {
            &&& forall|j: int| 0 <= j < i ==> (#[trigger] hasher_for(algs@[j]@)) is Some
            &&& hasher_for(algs@[i]@) is None
            &&& e == HashCommitError::UnsupportedAlg { alg: algs@[i] }
        },
{
    let mut seen: HashSet<u8> = HashSet::new();
    let mut steps: Vec<CommitStep> = Vec::new();
    let mut i: usize = 0;
    while i < algs.len()
        invariant
            i <= algs@.len(),
            steps@.len() == i,
            forall|j: int| 0 <= j < i ==> (#[trigger] hasher_for(algs@[j]@)) is Some,
            forall|j: int| 0 <= j < i ==> #[trigger] steps@[j] == step_for(algs@, j),
            forall|a: u8| #[trigger] seen@.contains(a) <==> (a != 5 && exists|j: int| 0 <= j < i && (#[trigger] algs@[j])@ == a),
        decreases algs@.len() - i,
    {
        let alg = algs[i];
        let hasher = match select_hasher(alg) {
            Ok(h) => h,
            Err(e) => {
                assert(hasher_for(algs@[i as int]@) is None);
                return Err(e);
            },
        };
        let id = alg.as_u8();
        let cached = seen.contains(&id);
        proof {
            if hasher != CommitHasher::Poseidon2 {
                assert(id != 5);
                if cached {
                    let j = choose|j: int| 0 <= j < i && (#[trigger] algs@[j])@ == id;
                    assert(algs@[j]@ == algs@[i as int]@);
                }
                if seen_before(algs@, i as int) {
                    let j = choose|j: int| 0 <= j < i && (#[trigger] algs@[j])@ == algs@[i as int]@;
                    assert(seen@.contains(algs@[j]@));
                }
                assert(cached == seen_before(algs@, i as int));
            }
        }
        let fresh = !is_reused(hasher) || !cached;
        if is_reused(hasher) && !cached {
            seen.insert(id);
        }
        steps.push(CommitStep { hasher, fresh });
        proof {
            assert forall|a: u8| #[trigger] seen@.contains(a) <==> (a != 5 && exists|j: int| 0 <= j < i + 1 && (#[trigger] algs@[j])@ == a) by {
                if seen@.contains(a) && a != id {
                    let j = choose|j: int| 0 <= j < i && (#[trigger] algs@[j])@ == a;
                    assert(0 <= j < i + 1);
                }
                if a != 5 && exists|j: int| 0 <= j < i + 1 && (#[trigger] algs@[j])@ == a {
                    let j = choose|j: int| 0 <= j < i + 1 && (#[trigger] algs@[j])@ == a;
                    if j < i {
                        assert(seen@.contains(a));
                    }
                }
            }
        }
        i += 1;
    }
    Ok(steps)
}

/// Whether the prover's blinder for `alg` must consist of M31 field
/// elements: the BLAKE2s commitment runs on a VM backend with M31
/// arithmetic. The other algorithms take 16 uniformly random bytes.
pub fn needs_m31_blinder(alg: HashAlgId) -> (r: bool)
    ensures
        r == (alg@ == 4),
{
    alg.as_u8() == 4
}

/// Converts a decoded hash into a typed hash: a value that could not be
/// decoded is a decode error, and one longer than a hash value is a
/// conversion error.
pub fn decoded_to_typed(alg: HashAlgId, decoded: Option<Vec<u8>>) -> (r: Result<TypedHash, HashCommitError>)
    ensures
        decoded is None ==> r == Err::<TypedHash, HashCommitError>(HashCommitError::Decode),
        decoded is Some && decoded->0@.len() > MAX_LEN ==> r == Err::<TypedHash, HashCommitError>(
            HashCommitError::Convert(TOO_LONG),
        ),
        decoded is Some && decoded->0@.len() <= MAX_LEN ==> (r matches Ok(h) && h.alg == alg
            && h.value@ == decoded->0@),
{
    match decoded {
        None => Err(HashCommitError::Decode),
        Some(bytes) => match crate::hash::Hash::try_from(bytes) {
            Ok(value) => Ok(TypedHash { alg, value }),
            Err(e) => Err(HashCommitError::Convert(e)),
        },
    }
}

/// Whether a decoded hash converts into a hash value: it was decoded, and
/// it is no longer than a hash value.
pub open spec fn converts(decoded: Option<Vec<u8>>) -> bool {
    decoded matches Some(v) && v@.len() <= MAX_LEN
}

/// Converts every decoded hash, in order, stopping at the first failure.
pub fn collect_decoded(decoded: Vec<(HashAlgId, Option<Vec<u8>>)>) -> (r: Result<Vec<TypedHash>, HashCommitError>)
    ensures
        r is Ok <==> forall|i: int| 0 <= i < decoded@.len() ==> converts(#[trigger] decoded@[i].1),
        r matches Ok(hs) ==> {
            &&& hs@.len() == decoded@.len()
            &&& forall|i: int| 0 <= i < decoded@.len() ==> {
                &&& #[trigger] hs@[i].alg == decoded@[i].0
                &&& hs@[i].value@ == decoded@[i].1->0@
            }
        },
        r matches Err(e) ==> exists|i: int| #![trigger decoded@[i]] 0 <= i < decoded@.len() && {
            &&& forall|j: int| 0 <= j < i ==> converts(#[trigger] decoded@[j].1)
            &&& !converts(decoded@[i].1)
            &&& (decoded@[i].1 is None ==> e == HashCommitError::Decode)
            &&& (decoded@[i].1 is Some ==> e == HashCommitError::Convert(TOO_LONG))
        },
{
    let ghost input = decoded@;
    let mut rest = decoded;
    let mut output: Vec<TypedHash> = Vec::new();
    while rest.len() > 0
        invariant
            input == decoded@,
            output@.len() + rest@.len() == input.len(),
            rest@ == input.subrange(output@.len() as int, input.len() as int),
            forall|j: int| 0 <= j < output@.len() ==> converts(#[trigger] input[j].1),
            forall|j: int| 0 <= j < output@.len() ==> {
                &&& #[trigger] output@[j].alg == input[j].0
                &&& output@[j].value@ == input[j].1->0@
            },
        decreases rest@.len(),
    {
        let ghost i = output@.len() as int;
        let (alg, bytes) = rest.remove(0);
        assert(input[i] == (alg, bytes));
        match decoded_to_typed(alg, bytes) {
            Ok(h) => {
                output.push(h);
                assert(rest@ =~= input.subrange(output@.len() as int, input.len() as int));
            },
            Err(e) => {
                assert(!converts(input[i].1));
                return Err(e);
            },
        }
    }
    Ok(output)
}

} // verus!
