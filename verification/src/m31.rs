//! Arithmetic in the Mersenne-31 prime field, `p = 2^31 - 1`.
//!
//! Field elements are held as `u32` values in `0..p`. The spec functions
//! reduce mathematical integers into that range; the executable functions
//! are proved to compute them without overflow.

use vstd::prelude::*;
use vstd::arithmetic::div_mod::{lemma_add_mod_noop, lemma_mod_bound, lemma_mul_mod_noop_general, lemma_small_mod};

verus! {

/// The field modulus `2^31 - 1`.
pub const P: u32 = 2147483647;

/// The canonical representative of `x` modulo `p`.
pub open spec fn reduce(x: int) -> u32 {
    (x % (P as int)) as u32
}

/// Field addition.
pub open spec fn add_spec(a: u32, b: u32) -> u32 {
    reduce(a + b)
}

/// Field multiplication.
pub open spec fn mul_spec(a: u32, b: u32) -> u32 {
    reduce(a * b)
}

/// The S-box `x^5`.
pub open spec fn pow5_spec(x: u32) -> u32 {
    reduce(x * x * x * x * x)
}

/// Whether every element of `s` is a canonical field element.
pub open spec fn all_reduced(s: Seq<u32>) -> bool {
    forall|i: int| 0 <= i < s.len() ==> #[trigger] s[i] < P
}

/// A reduced value is a canonical element and equals the remainder.
pub proof fn lemma_reduce_range(x: int)
    ensures
        reduce(x) < P,
        reduce(x) as int == x % (P as int),
{
    lemma_mod_bound(x, P as int);
}

/// A canonical element is its own reduction.
pub proof fn lemma_reduce_small(x: int)
    requires
        0 <= x < P,
    ensures
        reduce(x) as int == x,
{
    lemma_small_mod(x as nat, P as nat);
}

/// Reducing the operands of a sum does not change the reduced sum.
pub proof fn lemma_reduce_add(a: int, b: int)
    ensures
        reduce(reduce(a) as int + reduce(b) as int) == reduce(a + b),
{
    lemma_reduce_range(a);
    lemma_reduce_range(b);
    lemma_add_mod_noop(a, b, P as int);
}

/// Reducing the operands of a product does not change the reduced product.
pub proof fn lemma_reduce_mul(a: int, b: int)
    ensures
        reduce(reduce(a) as int * reduce(b) as int) == reduce(a * b),
{
    lemma_reduce_range(a);
    lemma_reduce_range(b);
    lemma_mul_mod_noop_general(a, b, P as int);
}

/// Reducing the left operand of a product does not change the reduced product.
pub proof fn lemma_reduce_mul_left(a: int, b: int)
    ensures
        reduce(reduce(a) as int * b) == reduce(a * b),
{
    lemma_reduce_range(a);
    lemma_mul_mod_noop_general(a, b, P as int);
}

/// The sum of `a` and `b` modulo `2^32`, less `p` when that is at least `p`.
/// For canonical elements this is field addition.
#[verifier::opaque]
pub open spec fn wrapped_add_spec(a: u32, b: u32) -> u32 {
    let s = (a + b) % 0x1_0000_0000;
    if s >= P {
        (s - P) as u32
    } else {
        s as u32
    }
}

/// Field addition: the wrapping sum, less `p` when it is at least `p`.
pub fn add(a: u32, b: u32) -> (r: u32)
    ensures
        r == wrapped_add_spec(a, b),
        a < P && b < P ==> r == add_spec(a, b) && r < P,
{
    let s = a.wrapping_add(b);
    proof {
        reveal(wrapped_add_spec);
        lemma_reduce_range(a + b);
        if a < P && b < P {
            assert(s == a + b);
            if a + b >= P {
                lemma_small_mod((a + b - P) as nat, P as nat);
                vstd::arithmetic::div_mod::lemma_mod_sub_multiples_vanish(a + b, P as int);
            } else {
                lemma_small_mod((a + b) as nat, P as nat);
            }
        }
        if a + b < 0x1_0000_0000 {
            lemma_small_mod((a + b) as nat, 0x1_0000_0000);
        } else {
            lemma_small_mod((a + b - 0x1_0000_0000) as nat, 0x1_0000_0000);
            vstd::arithmetic::div_mod::lemma_mod_sub_multiples_vanish(a + b, 0x1_0000_0000);
        }
    }
    if s >= P {
        s - P
    } else {
        s
    }
}

/// Field multiplication; the operands need not be reduced.
pub fn mul(a: u32, b: u32) -> (r: u32)
    ensures
        r == mul_spec(a, b),
        r < P,
{
    assert(a as int * b as int <= 0xffff_ffff * 0xffff_ffff) by (nonlinear_arith)
        requires
            a <= 0xffff_ffff,
            b <= 0xffff_ffff,
    ;
    assert(0 <= a as int * b as int) by (nonlinear_arith);
    let prod: u64 = a as u64 * b as u64;
    proof {
        lemma_reduce_range(a * b);
    }
    (prod % (P as u64)) as u32
}

/// The S-box `x^5` of a field element.
pub fn pow5(x: u32) -> (r: u32)
    ensures
        r == pow5_spec(x),
        r < P,
{
    let x2 = self::mul(x, x);
    let x4 = self::mul(x2, x2);
    let r = self::mul(x4, x);
    proof {
        let xx = x as int * x as int;
        lemma_reduce_mul(xx, xx);
        lemma_reduce_mul_left(xx * xx, x as int);
        assert(xx * xx * x == x * x * x * x * x) by (nonlinear_arith)
            requires
                xx == x as int * x as int,
        ;
    }
    r
}

} // verus!
