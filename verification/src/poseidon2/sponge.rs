//! The Poseidon2 sponge: each input byte is one field element, absorbed
//! eight at a time.

use vstd::prelude::*;
use crate::m31::{P, add_spec, all_reduced};
use crate::poseidon2::model::{absorb_spec, absorbed, block, block_count, le_byte, poseidon2_digest, zero_state};
use crate::poseidon2::params::{N_STATE, RATE};
use crate::poseidon2::permutation::permute;
use crate::alg_id::HashAlgId;
use crate::algorithm::HashAlgorithm;

verus! {

broadcast use vstd::array::group_array_axioms;

/// Adds a block into the rate part of the state and permutes.
pub fn absorb(s: [u32; N_STATE], block: [u32; RATE]) -> (r: [u32; N_STATE])
    requires
        all_reduced(s@),
        all_reduced(block@),
    ensures
        r@ == absorb_spec(s@, block@),
        all_reduced(r@),
{
    let ghost s0 = s@;
    let mut s = s;
    for i in 0..RATE
        invariant
            s@.len() == 16,
            s0.len() == 16,
            block@.len() == 8,
            all_reduced(s0),
            all_reduced(block@),
            forall|j: int| 0 <= j < i ==> #[trigger] s@[j] == add_spec(s0[j], block@[j]) && s@[j] < P,
            forall|j: int| i <= j < 16 ==> #[trigger] s@[j] == s0[j],
    {
        assert(s@[i as int] == s0[i as int] && s0[i as int] < P && block@[i as int] < P);
        s[i] = crate::m31::add(s[i], block[i]);
    }
    let ghost mixed = Seq::new(16, |i: int| if i < 8 { add_spec(s0[i], block@[i]) } else { s0[i] });
    assert(s@ =~= mixed);
    permute(s)
}

/// Hashes a byte slice with Poseidon2 over M31.
pub fn hash_bytes(data: &[u8]) -> (r: [u8; 32])
    ensures
        r@ == poseidon2_digest(data@),
{
    let mut state = [0u32; 16];
    let mut buf = [0u32; 8];
    let mut pos: usize = 0;
    let mut any_block = false;
    let mut k: usize = 0;
    assert(state@ =~= zero_state());
    while k < data.len()
        invariant
            k <= data@.len(),
            pos == k % 8,
            state@ == absorbed(data@, (k / 8) as int),
            all_reduced(state@),
            state@.len() == 16,
            buf@.len() == 8,
            any_block == (k >= 8),
            forall|j: int| 0 <= j < pos ==> #[trigger] buf@[j] == data@[k - pos + j] as u32,
            forall|j: int| pos <= j < 8 ==> #[trigger] buf@[j] == 0,
        decreases data@.len() - k,
    {
        buf[pos] = data[k] as u32;
        pos += 1;
        if pos == RATE {
            assert(buf@ =~= block(data@, (k / 8) as int));
            assert forall|j: int| 0 <= j < 8 implies #[trigger] buf@[j] < P by {
                assert(buf@[j] == data@[k - 7 + j] as u32);
            }
            state = absorb(state, buf);
            buf = [0u32; 8];
            pos = 0;
            any_block = true;
            assert((k + 1) / 8 == k / 8 + 1);
        } else {
            assert((k + 1) / 8 == k / 8);
        }
        k += 1;
    }
    if !any_block || pos > 0 {
        assert(buf@ =~= block(data@, (k / 8) as int));
        assert forall|j: int| 0 <= j < 8 implies #[trigger] buf@[j] < P by {
            if j < pos {
                assert(buf@[j] == data@[k - pos + j] as u32);
            }
        }
        state = absorb(state, buf);
        assert(block_count(data@.len()) == k / 8 + 1);
    } else {
        assert(block_count(data@.len()) == k / 8);
    }
    let ghost fin = state@;
    assert(fin == absorbed(data@, block_count(data@.len()) as int));
    let mut out = [0u8; 32];
    for i in 0..RATE
        invariant
            fin == state@,
            fin.len() == 16,
            out@.len() == 32,
            forall|j: int| 0 <= j < 4 * i ==> #[trigger] out@[j] == le_byte(fin[j / 4], j % 4),
    {
        let w = state[i];
        out[4 * i] = (w % 256) as u8;
        out[4 * i + 1] = ((w / 256) % 256) as u8;
        out[4 * i + 2] = ((w / 65536) % 256) as u8;
        out[4 * i + 3] = (w / 16777216) as u8;
        assert forall|j: int| 0 <= j < 4 * i + 4 implies #[trigger] out@[j] == le_byte(fin[j / 4], j % 4) by {
            if j >= 4 * i {
                assert(j / 4 == i as int);
            }
        }
    }
    assert(out@ =~= poseidon2_digest(data@));
    out
}

/// Poseidon2 hash algorithm (native, non-VM).
#[derive(Default, Clone)]
pub struct Poseidon2 {}

impl HashAlgorithm for Poseidon2 {
    open spec fn spec_id(&self) -> u8 {
        5
    }

    open spec fn spec_hash(&self, data: Seq<u8>) -> Seq<u8> {
        poseidon2_digest(data)
    }

    open spec fn spec_hash_prefixed(&self, prefix: Seq<u8>, data: Seq<u8>) -> Seq<u8> {
        poseidon2_digest(prefix + data)
    }

    fn id(&self) -> (r: HashAlgId) {
        HashAlgId::POSEIDON2()
    }

    fn hash(&self, data: &[u8]) -> (r: crate::hash::Hash)
        ensures
            r@ == poseidon2_digest(data@),
            r@.len() == 32,
    {
        let digest = hash_bytes(data);
        crate::hash::Hash::new(digest.as_slice())
    }

    fn hash_prefixed(&self, prefix: &[u8], data: &[u8]) -> (r: crate::hash::Hash)
        ensures
            r@ == poseidon2_digest(prefix@ + data@),
            r@.len() == 32,
    {
        let mut combined: Vec<u8> = Vec::new();
        combined.extend_from_slice(prefix);
        combined.extend_from_slice(data);
        assert(combined@ =~= prefix@ + data@);
        let digest = hash_bytes(combined.as_slice());
        crate::hash::Hash::new(digest.as_slice())
    }
}

} // verus!
