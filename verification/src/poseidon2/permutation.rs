//! The Poseidon2 permutation over M31.

use vstd::prelude::*;
use crate::m31::{P, reduce, add_spec, pow5_spec, all_reduced, lemma_reduce_add, lemma_reduce_small};
use crate::poseidon2::model::{lemma_internal_index, lemma_m4_blocks_index, lemma_external_index, m4_spec, m4_blocks, external_spec, internal_spec, seq_sum, full_round, partial_round, full_rounds, partial_rounds, permute_spec};
use crate::poseidon2::params::{N_STATE, N_HALF_FULL_ROUNDS, N_PARTIAL_ROUNDS, MAT_INTERNAL_DIAG_M_1, EXTERNAL_ROUND_CONSTS, INTERNAL_ROUND_CONSTS, lemma_external_round_consts_reduced, lemma_internal_round_consts_reduced};

verus! {

/// Field addition where both operands are known reductions `reduce(a)` and
/// `reduce(b)`: the result is `reduce(a + b)`.
proof fn lemma_add_of_reduced(x: u32, y: u32, a: int, b: int)
    requires
        x == reduce(a),
        y == reduce(b),
    ensures
        add_spec(x, y) == reduce(a + b),
{
    lemma_reduce_add(a, b);
}

/// The 4x4 MDS matrix applied to four field elements.
#[verifier::spinoff_prover]
#[verifier::rlimit(40)]
pub fn apply_m4(x: [u32; 4]) -> (r: [u32; 4])
    requires
        all_reduced(x@),
    ensures
        r@ == m4_spec(x@),
        all_reduced(r@),
{
    let x0 = x[0];
    let x1 = x[1];
    let x2 = x[2];
    let x3 = x[3];
    assert(x0 < P && x1 < P && x2 < P && x3 < P) by {
        assert(x@[0] < P && x@[1] < P && x@[2] < P && x@[3] < P);
    }
    proof {
        lemma_reduce_small(x0 as int);
        lemma_reduce_small(x1 as int);
        lemma_reduce_small(x2 as int);
        lemma_reduce_small(x3 as int);
    }
    let ghost a0: int = x0 + x1;
    let ghost a1: int = x2 + x3;
    let t0 = crate::m31::add(x0, x1);
    let t1 = crate::m31::add(x2, x3);
    let t02 = crate::m31::add(t0, t0);
    proof { lemma_add_of_reduced(t0, t0, a0, a0); }
    let t12 = crate::m31::add(t1, t1);
    proof { lemma_add_of_reduced(t1, t1, a1, a1); }
    let x1d = crate::m31::add(x1, x1);
    let t2 = crate::m31::add(x1d, t1);
    proof { lemma_add_of_reduced(x1d, t1, 2 * x1, a1); }
    let x3d = crate::m31::add(x3, x3);
    let t3 = crate::m31::add(x3d, t0);
    proof { lemma_add_of_reduced(x3d, t0, 2 * x3, a0); }
    let t12x2 = crate::m31::add(t12, t12);
    proof { lemma_add_of_reduced(t12, t12, 2 * a1, 2 * a1); }
    let t4 = crate::m31::add(t12x2, t3);
    proof { lemma_add_of_reduced(t12x2, t3, 4 * a1, 2 * x3 + a0); }
    let t02x2 = crate::m31::add(t02, t02);
    proof { lemma_add_of_reduced(t02, t02, 2 * a0, 2 * a0); }
    let t5 = crate::m31::add(t02x2, t2);
    proof { lemma_add_of_reduced(t02x2, t2, 4 * a0, 2 * x1 + a1); }
    let r0 = crate::m31::add(t3, t5);
    proof { lemma_add_of_reduced(t3, t5, 2 * x3 + a0, 4 * a0 + 2 * x1 + a1); }
    let r2 = crate::m31::add(t2, t4);
    proof { lemma_add_of_reduced(t2, t4, 2 * x1 + a1, 4 * a1 + 2 * x3 + a0); }
    let r = [r0, t5, r2, t4];
    assert(r@ =~= m4_spec(x@));
    r
}

/// Adds to each element of column `j` the sum of that column.
#[verifier::spinoff_prover]
#[verifier::rlimit(40)]
fn mix_column(s: [u32; N_STATE], j: usize) -> (r: [u32; N_STATE])
    requires
        j < 4,
        all_reduced(s@),
    ensures
        all_reduced(r@),
        forall|k: int| 0 <= k < 4 ==> #[trigger] r@[j + 4 * k] == reduce(
            s@[j + 4 * k] + (s@[j as int] + s@[j + 4] + s@[j + 8] + s@[j + 12]),
        ),
        forall|i: int| 0 <= i < 16 && i % 4 != j ==> #[trigger] r@[i] == s@[i],
{
    let ghost s0 = s@;
    let mut s = s;
    let ghost y0: int = s0[j as int] as int;
    let ghost y1: int = s0[j + 4] as int;
    let ghost y2: int = s0[j + 8] as int;
    let ghost y3: int = s0[j + 12] as int;
    proof {
        lemma_reduce_small(y0);
        lemma_reduce_small(y1);
        lemma_reduce_small(y2);
        lemma_reduce_small(y3);
    }
    let u = crate::m31::add(s[j], s[j + 4]);
    let v = crate::m31::add(s[j + 8], s[j + 12]);
    let t = crate::m31::add(u, v);
    proof { lemma_add_of_reduced(u, v, y0 + y1, y2 + y3); }
    let ghost total: int = y0 + y1 + y2 + y3;
    let n0 = crate::m31::add(s[j], t);
    proof { lemma_add_of_reduced(s[j as int], t, y0, total); }
    let n1 = crate::m31::add(s[j + 4], t);
    proof { lemma_add_of_reduced(s[j + 4], t, y1, total); }
    let n2 = crate::m31::add(s[j + 8], t);
    proof { lemma_add_of_reduced(s[j + 8], t, y2, total); }
    let n3 = crate::m31::add(s[j + 12], t);
    proof { lemma_add_of_reduced(s[j + 12], t, y3, total); }
    s[j] = n0;
    s[j + 4] = n1;
    s[j + 8] = n2;
    s[j + 12] = n3;
    assert forall|k: int| 0 <= k < 4 implies #[trigger] s@[j + 4 * k] == reduce(
        s0[j + 4 * k] + (s0[j as int] + s0[j + 4] + s0[j + 8] + s0[j + 12]),
    ) by {
        if k == 0 {} else if k == 1 {} else if k == 2 {} else {}
    }
    assert forall|i: int| 0 <= i < 16 && i % 4 != j implies #[trigger] s@[i] == s0[i] by {
        assert(i != j && i != j + 4 && i != j + 8 && i != j + 12);
    }
    s
}

/// The external linear layer.
pub fn external_matrix(s: [u32; N_STATE]) -> (r: [u32; N_STATE])
    requires
        all_reduced(s@),
    ensures
        r@ == external_spec(s@),
        all_reduced(r@),
{
    let ghost s0 = s@;
    let ghost y = m4_blocks(s0);
    let mut s = s;
    for i in 0..4
        invariant
            s0.len() == 16,
            s@.len() == 16,
            all_reduced(s0),
            all_reduced(s@),
            y == m4_blocks(s0),
            forall|j: int| 0 <= j < 4 * i ==> s@[j] == y[j],
            forall|j: int| 4 * i <= j < 16 ==> s@[j] == s0[j],
    {
        let blk = [s[4 * i], s[4 * i + 1], s[4 * i + 2], s[4 * i + 3]];
        assert(blk@ =~= s0.subrange(4 * i as int, 4 * i + 4));
        let c = apply_m4(blk);
        assert forall|k: int| 0 <= k < 4 implies y[4 * i + k] == #[trigger] c@[k] by {
            lemma_m4_blocks_index(s0, i as int, k);
        }
        s[4 * i] = c[0];
        s[4 * i + 1] = c[1];
        s[4 * i + 2] = c[2];
        s[4 * i + 3] = c[3];
        assert(c@[0] < P && c@[1] < P && c@[2] < P && c@[3] < P);
    }
    let ghost ext = external_spec(s0);
    proof { lemma_m4_blocks_index(s0, 0, 0); }
    assert(all_reduced(y));
    for j in 0..4
        invariant
            s@.len() == 16,
            y.len() == 16,
            all_reduced(y),
            all_reduced(s@),
            ext == external_spec(s0),
            y == m4_blocks(s0),
            forall|i: int| 0 <= i < 16 ==> if i % 4 < j { #[trigger] s@[i] == ext[i] } else { s@[i] == y[i] },
    {
        let ghost prev = s@;
        assert(prev[j as int] == y[j as int]);
        assert(prev[j + 4] == y[j + 4]);
        assert(prev[j + 8] == y[j + 8]);
        assert(prev[j + 12] == y[j + 12]);
        s = mix_column(s, j);
        assert forall|i: int| 0 <= i < 16 implies if i % 4 < j + 1 { #[trigger] s@[i] == ext[i] } else { s@[i] == y[i] } by {
            if i % 4 == j {
                let k = i / 4;
                assert(i == j + 4 * k);
                lemma_external_index(s0, j as int, k);
                assert(prev[i] == y[i]);
                assert(s@[j + 4 * k] == reduce(prev[j + 4 * k] + (prev[j as int] + prev[j + 4] + prev[j + 8] + prev[j + 12])));
            } else {
                assert(s@[i] == prev[i]);
            }
        }
    }
    assert forall|i: int| 0 <= i < 16 implies #[trigger] s@[i] == ext[i] by {
        assert(i % 4 < 4);
    }
    proof { lemma_external_index(s0, 0, 0); }
    assert(s@ =~= ext);
    s
}

/// The internal linear layer.
pub fn internal_matrix(s: [u32; N_STATE]) -> (r: [u32; N_STATE])
    requires
        all_reduced(s@),
    ensures
        r@ == internal_spec(s@),
        all_reduced(r@),
{
    let ghost s0 = s@;
    let mut s = s;
    let mut sum: u32 = 0;
    proof {
        lemma_reduce_small(0);
        assert(s0.take(0) =~= Seq::<u32>::empty());
    }
    for i in 0..N_STATE
        invariant
            s@ == s0,
            s0.len() == 16,
            all_reduced(s0),
            sum == reduce(seq_sum(s0.take(i as int))),
    {
        proof {
            assert(s0.take(i + 1).drop_last() =~= s0.take(i as int));
            assert(s0[i as int] < P);
            lemma_reduce_small(s0[i as int] as int);
            lemma_add_of_reduced(sum, s0[i as int], seq_sum(s0.take(i as int)), s0[i as int] as int);
        }
        sum = crate::m31::add(sum, s[i]);
    }
    assert(s0.take(16) =~= s0);
    let ghost total = seq_sum(s0);
    for i in 0..N_STATE
        invariant
            s@.len() == 16,
            s0.len() == 16,
            all_reduced(s0),
            sum == reduce(total),
            total == seq_sum(s0),
            sum < P,
            forall|j: int| 0 <= j < i ==> #[trigger] s@[j] == internal_spec(s0)[j] && s@[j] < P,
            forall|j: int| i <= j < 16 ==> #[trigger] s@[j] == s0[j],
    {
        let m = crate::m31::mul(s[i], MAT_INTERNAL_DIAG_M_1[i]);
        let v = crate::m31::add(m, sum);
        proof {
            lemma_add_of_reduced(m, sum, s0[i as int] * MAT_INTERNAL_DIAG_M_1@[i as int], total);
            lemma_internal_index(s0, i as int);
        }
        s[i] = v;
    }
    proof { lemma_internal_index(s0, 0); }
    assert(s@ =~= internal_spec(s0));
    s
}

/// One full round with the round constants of row `round`.
fn full_round_layer(s: [u32; N_STATE], round: usize) -> (r: [u32; N_STATE])
    requires
        round < 8,
        all_reduced(s@),
    ensures
        r@ == full_round(s@, EXTERNAL_ROUND_CONSTS@[round as int]@),
        all_reduced(r@),
{
    let ghost s0 = s@;
    let ghost rc = EXTERNAL_ROUND_CONSTS@[round as int]@;
    proof { lemma_external_round_consts_reduced(); }
    let mut s = s;
    for i in 0..N_STATE
        invariant
            round < 8,
            rc == EXTERNAL_ROUND_CONSTS@[round as int]@,
            s@.len() == 16,
            s0.len() == 16,
            all_reduced(s0),
            forall|r: int, k: int| 0 <= r < 8 && 0 <= k < 16 ==> #[trigger] EXTERNAL_ROUND_CONSTS@[r]@[k] < P,
            forall|j: int| 0 <= j < i ==> #[trigger] s@[j] == add_spec(s0[j], rc[j]) && s@[j] < P,
            forall|j: int| i <= j < 16 ==> #[trigger] s@[j] == s0[j],
    {
        assert(EXTERNAL_ROUND_CONSTS@[round as int]@[i as int] < P);
        assert(s@[i as int] == s0[i as int] && s0[i as int] < P);
        s[i] = crate::m31::add(s[i], EXTERNAL_ROUND_CONSTS[round][i]);
    }
    let ghost added = s@;
    for i in 0..N_STATE
        invariant
            s@.len() == 16,
            added.len() == 16,
            forall|j: int| 0 <= j < i ==> #[trigger] s@[j] == pow5_spec(added[j]) && s@[j] < P,
            forall|j: int| i <= j < 16 ==> #[trigger] s@[j] == added[j],
    {
        s[i] = crate::m31::pow5(s[i]);
    }
    assert(s@ =~= Seq::new(16, |i: int| pow5_spec(add_spec(s0[i], rc[i]))));
    external_matrix(s)
}

/// One partial round with the constant of index `round`.
fn partial_round_layer(s: [u32; N_STATE], round: usize) -> (r: [u32; N_STATE])
    requires
        round < 14,
        all_reduced(s@),
    ensures
        r@ == partial_round(s@, INTERNAL_ROUND_CONSTS@[round as int]),
        all_reduced(r@),
{
    let ghost s0 = s@;
    proof { lemma_internal_round_consts_reduced(); }
    let mut s = s;
    s[0] = crate::m31::pow5(crate::m31::add(s[0], INTERNAL_ROUND_CONSTS[round]));
    assert(s@ =~= s0.update(0, pow5_spec(add_spec(s0[0], INTERNAL_ROUND_CONSTS@[round as int]))));
    internal_matrix(s)
}

/// The Poseidon2 permutation.
pub fn permute(s: [u32; N_STATE]) -> (r: [u32; N_STATE])
    requires
        all_reduced(s@),
    ensures
        r@ == permute_spec(s@),
        all_reduced(r@),
{
    let ghost s0 = s@;
    let mut s = external_matrix(s);
    let ghost e = s@;
    for round in 0..N_HALF_FULL_ROUNDS
        invariant
            s@ == full_rounds(e, 0, round as int),
            all_reduced(s@),
    {
        s = full_round_layer(s, round);
    }
    let ghost f = s@;
    for round in 0..N_PARTIAL_ROUNDS
        invariant
            s@ == partial_rounds(f, round as int),
            all_reduced(s@),
    {
        s = partial_round_layer(s, round);
    }
    let ghost q = s@;
    for round in N_HALF_FULL_ROUNDS..2 * N_HALF_FULL_ROUNDS
        invariant
            N_HALF_FULL_ROUNDS <= round <= 8,
            s@ == full_rounds(q, 4, round as int),
            all_reduced(s@),
    {
        s = full_round_layer(s, round);
    }
    s
}

} // verus!
