//! The mathematical definition of the Poseidon2 permutation and sponge.
//!
//! States are sequences of 16 field elements. Every step reduces its result
//! modulo `p`, so each function maps canonical states to canonical states.

use vstd::prelude::*;
use crate::m31::{add_spec, pow5_spec, reduce};
use crate::poseidon2::params::{EXTERNAL_ROUND_CONSTS, INTERNAL_ROUND_CONSTS, MAT_INTERNAL_DIAG_M_1};

verus! {

/// The 4x4 MDS matrix `[[5,7,1,3],[4,6,1,1],[1,3,5,7],[1,1,4,6]]` applied to
/// the four elements `x[0..4]`.
pub open spec fn m4_spec(x: Seq<u32>) -> Seq<u32> {
    seq![
        reduce(5 * x[0] + 7 * x[1] + x[2] + 3 * x[3]),
        reduce(4 * x[0] + 6 * x[1] + x[2] + x[3]),
        reduce(x[0] + 3 * x[1] + 5 * x[2] + 7 * x[3]),
        reduce(x[0] + x[1] + 4 * x[2] + 6 * x[3]),
    ]
}

/// The 4x4 matrix applied to each of the four consecutive blocks of `s`.
#[verifier::opaque]
pub open spec fn m4_blocks(s: Seq<u32>) -> Seq<u32> {
    Seq::new(16, |i: int| m4_spec(s.subrange(4 * (i / 4), 4 * (i / 4) + 4))[i % 4])
}

/// The external linear layer: each block is mixed with the 4x4 matrix, then
/// each element gets the sum of its column across the four blocks added.
#[verifier::opaque]
pub open spec fn external_spec(s: Seq<u32>) -> Seq<u32> {
    let y = m4_blocks(s);
    Seq::new(
        16,
        |i: int| reduce(y[i] + y[i % 4] + y[4 + i % 4] + y[8 + i % 4] + y[12 + i % 4]),
    )
}

/// Element `4 * b + k` of the blockwise product is element `k` of the 4x4
/// product of block `b`.
pub proof fn lemma_m4_blocks_index(s: Seq<u32>, b: int, k: int)
    requires
        0 <= b < 4,
        0 <= k < 4,
    ensures
        m4_blocks(s).len() == 16,
        m4_blocks(s)[4 * b + k] == m4_spec(s.subrange(4 * b, 4 * b + 4))[k],
{
    reveal(m4_blocks);
    assert((4 * b + k) / 4 == b);
    assert((4 * b + k) % 4 == k);
}

/// Element `c + 4 * k` of the external layer, for column `c`.
pub proof fn lemma_external_index(s: Seq<u32>, c: int, k: int)
    requires
        0 <= c < 4,
        0 <= k < 4,
    ensures
        external_spec(s).len() == 16,
        external_spec(s)[c + 4 * k] == ({
            let y = m4_blocks(s);
            reduce(y[c + 4 * k] + (y[c] + y[4 + c] + y[8 + c] + y[12 + c]))
        }),
{
    reveal(external_spec);
    assert((c + 4 * k) % 4 == c);
}

/// The sum of all elements of `s`, as an integer.
pub open spec fn seq_sum(s: Seq<u32>) -> int
    decreases s.len(),
{
    if s.len() == 0 {
        0
    } else {
        seq_sum(s.drop_last()) + s.last()
    }
}

/// The internal linear layer: `s[i] * d[i] + sum(s)` for the diagonal `d`.
#[verifier::opaque]
pub open spec fn internal_spec(s: Seq<u32>) -> Seq<u32> {
    Seq::new(16, |i: int| reduce(s[i] * MAT_INTERNAL_DIAG_M_1@[i] + seq_sum(s)))
}

/// Element `i` of the internal layer.
pub proof fn lemma_internal_index(s: Seq<u32>, i: int)
    requires
        0 <= i < 16,
    ensures
        internal_spec(s).len() == 16,
        internal_spec(s)[i] == reduce(s[i] * MAT_INTERNAL_DIAG_M_1@[i] + seq_sum(s)),
{
    reveal(internal_spec);
}

/// A full round: add the round constants, apply the S-box to every element,
/// then the external layer.
pub open spec fn full_round(s: Seq<u32>, rc: Seq<u32>) -> Seq<u32> {
    external_spec(Seq::new(16, |i: int| pow5_spec(add_spec(s[i], rc[i]))))
}

/// A partial round: add the constant to the first element, apply the S-box
/// to it alone, then the internal layer.
pub open spec fn partial_round(s: Seq<u32>, c: u32) -> Seq<u32> {
    internal_spec(s.update(0, pow5_spec(add_spec(s[0], c))))
}

/// The full rounds numbered `lo..hi` applied in order to `s`.
pub open spec fn full_rounds(s: Seq<u32>, lo: int, hi: int) -> Seq<u32>
    decreases hi - lo,
{
    if hi <= lo {
        s
    } else {
        full_round(full_rounds(s, lo, hi - 1), EXTERNAL_ROUND_CONSTS@[hi - 1]@)
    }
}

/// The first `n` partial rounds applied in order to `s`.
pub open spec fn partial_rounds(s: Seq<u32>, n: int) -> Seq<u32>
    decreases n,
{
    if n <= 0 {
        s
    } else {
        partial_round(partial_rounds(s, n - 1), INTERNAL_ROUND_CONSTS@[n - 1])
    }
}

/// The Poseidon2 permutation: an initial external layer, four full rounds,
/// fourteen partial rounds and four more full rounds.
pub open spec fn permute_spec(s: Seq<u32>) -> Seq<u32> {
    full_rounds(partial_rounds(full_rounds(external_spec(s), 0, 4), 14), 4, 8)
}

/// Adds a block of eight elements into the rate part of the state, then
/// permutes.
pub open spec fn absorb_spec(s: Seq<u32>, block: Seq<u32>) -> Seq<u32> {
    permute_spec(Seq::new(16, |i: int| if i < 8 { add_spec(s[i], block[i]) } else { s[i] }))
}

/// Number of blocks the sponge absorbs for an input of `len` bytes: the
/// input is split into blocks of eight, the last one zero-padded, and an
/// empty input still absorbs one all-zero block.
pub open spec fn block_count(len: nat) -> nat {
    if len == 0 {
        1
    } else {
        ((len + 7) / 8) as nat
    }
}

/// Block `k` of the input: each byte is one field element, and positions
/// past the end of the input are zero.
pub open spec fn block(data: Seq<u8>, k: int) -> Seq<u32> {
    Seq::new(8, |j: int| if 8 * k + j < data.len() { data[8 * k + j] as u32 } else { 0u32 })
}

/// The all-zero initial state.
pub open spec fn zero_state() -> Seq<u32> {
    Seq::new(16, |i: int| 0u32)
}

/// The state after absorbing the first `k` blocks of `data`.
pub open spec fn absorbed(data: Seq<u8>, k: int) -> Seq<u32>
    decreases k,
{
    if k <= 0 {
        zero_state()
    } else {
        absorb_spec(absorbed(data, k - 1), block(data, k - 1))
    }
}

/// Byte `k` (0 = least significant) of the little-endian encoding of `w`.
pub open spec fn le_byte(w: u32, k: int) -> u8 {
    if k == 0 {
        (w % 256) as u8
    } else if k == 1 {
        ((w / 256) % 256) as u8
    } else if k == 2 {
        ((w / 65536) % 256) as u8
    } else {
        (w / 16777216) as u8
    }
}

/// The 32-byte Poseidon2 digest of `data`: the little-endian encoding of the
/// first eight state elements after absorbing every block.
pub open spec fn poseidon2_digest(data: Seq<u8>) -> Seq<u8> {
    let state = absorbed(data, block_count(data.len()) as int);
    Seq::new(32, |i: int| le_byte(state[i / 4], i % 4))
}

} // verus!
