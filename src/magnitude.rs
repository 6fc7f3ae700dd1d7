//! Absolute value of one encoded double, and of each double of a sequence.

use vstd::prelude::*;
use crate::binary64::{SIGN_MASK, sign_set, is_finite, ge_zero, neg, same_value, is_nonnegative};

verus! {

/// The absolute value of `x`: where `x >= 0.0`, `x` itself with the sign of
/// a zero dropped; otherwise `-x`.
pub open spec fn abs_of(b: u64) -> u64 {
    if ge_zero(b) {
        b & 0x7fff_ffff_ffff_ffffu64
    } else {
        neg(b)
    }
}

/// Clearing the sign bit of a number that compares `>= 0.0` keeps its value.
proof fn lemma_clear_sign_keeps_value(b: u64)
    requires
        ge_zero(b),
    ensures
        same_value(b & 0x7fff_ffff_ffff_ffffu64, b),
        !sign_set(b & 0x7fff_ffff_ffff_ffffu64),
{
    let c = b & 0x7fff_ffff_ffff_ffffu64;
    assert(c & 0x7ff0_0000_0000_0000u64 == b & 0x7ff0_0000_0000_0000u64) by (bit_vector)
        requires
            c == b & 0x7fff_ffff_ffff_ffffu64,
    ;
    assert(c & 0x000f_ffff_ffff_ffffu64 == b & 0x000f_ffff_ffff_ffffu64) by (bit_vector)
        requires
            c == b & 0x7fff_ffff_ffff_ffffu64,
    ;
    assert(c & 0x7fff_ffff_ffff_ffffu64 == b & 0x7fff_ffff_ffff_ffffu64) by (bit_vector)
        requires
            c == b & 0x7fff_ffff_ffff_ffffu64,
    ;
    assert(c & 0x8000_0000_0000_0000u64 == 0) by (bit_vector)
        requires
            c == b & 0x7fff_ffff_ffff_ffffu64,
    ;
    assert(b & 0x8000_0000_0000_0000u64 == 0 ==> c == b) by (bit_vector)
        requires
            c == b & 0x7fff_ffff_ffff_ffffu64,
    ;
}

/// The absolute value of the double encoded by `x`.
pub fn abs_value(x: u64) -> (r: u64)
    ensures
        r == abs_of(x),
        ge_zero(x) ==> same_value(r, x) && !sign_set(r),
        !ge_zero(x) ==> r == neg(x),
{
    if is_nonnegative(x) {
        proof {
            lemma_clear_sign_keeps_value(x);
        }
        assert(!SIGN_MASK == 0x7fff_ffff_ffff_ffffu64) by (bit_vector);
        x & !SIGN_MASK
    } else {
        x ^ SIGN_MASK
    }
}

/// The absolute value of each double of `v`, in the same order.
pub fn abs_value_iter(v: Vec<u64>) -> (r: Vec<u64>)
    ensures
        r@.len() == v@.len(),
        forall|i: int| 0 <= i < v@.len() ==> #[trigger] r@[i] == abs_of(v@[i]),
        r@ == v@.map_values(|b: u64| abs_of(b)),
{
    let mut r: Vec<u64> = Vec::with_capacity(v.len());
    let mut i: usize = 0;
    while i < v.len()
        invariant
            i <= v@.len(),
            r@.len() == i,
            forall|j: int| 0 <= j < i ==> #[trigger] r@[j] == abs_of(v@[j]),
        decreases v@.len() - i,
    {
        r.push(abs_value(v[i]));
        i = i + 1;
    }
    assert(r@ =~= v@.map_values(|b: u64| abs_of(b)));
    r
}

/// The absolute value of a finite double compares `>= 0.0`.
pub proof fn lemma_abs_nonnegative(x: u64)
    requires
        is_finite(x),
    ensures
        ge_zero(abs_of(x)),
{
    if ge_zero(x) {
        lemma_clear_sign_keeps_value(x);
    } else {
        let n = neg(x);
        assert(n & 0x7ff0_0000_0000_0000u64 == x & 0x7ff0_0000_0000_0000u64) by (bit_vector)
            requires
                n == x ^ 0x8000_0000_0000_0000u64,
        ;
        assert(x & 0x8000_0000_0000_0000u64 != 0 ==> n & 0x8000_0000_0000_0000u64 == 0)
            by (bit_vector)
            requires
                n == x ^ 0x8000_0000_0000_0000u64,
        ;
    }
}

/// A finite double and its negation have the same absolute value, as a
/// value and as an encoding.
pub proof fn lemma_abs_of_negation(x: u64)
    requires
        is_finite(x),
    ensures
        abs_of(neg(x)) == abs_of(x),
        same_value(abs_of(neg(x)), abs_of(x)),
{
    let n = neg(x);
    assert(n & 0x7ff0_0000_0000_0000u64 == x & 0x7ff0_0000_0000_0000u64) by (bit_vector)
        requires
            n == x ^ 0x8000_0000_0000_0000u64,
    ;
    assert(n & 0x7fff_ffff_ffff_ffffu64 == x & 0x7fff_ffff_ffff_ffffu64) by (bit_vector)
        requires
            n == x ^ 0x8000_0000_0000_0000u64,
    ;
    assert((x & 0x8000_0000_0000_0000u64 != 0) == (n & 0x8000_0000_0000_0000u64 == 0))
        by (bit_vector)
        requires
            n == x ^ 0x8000_0000_0000_0000u64,
    ;
    assert(n ^ 0x8000_0000_0000_0000u64 == x) by (bit_vector)
        requires
            n == x ^ 0x8000_0000_0000_0000u64,
    ;
    assert(x & 0x8000_0000_0000_0000u64 == 0 ==> x & 0x7fff_ffff_ffff_ffffu64 == x)
        by (bit_vector);
    assert(n & 0x8000_0000_0000_0000u64 == 0 ==> n & 0x7fff_ffff_ffff_ffffu64 == n)
        by (bit_vector);
    lemma_abs_nonnegative(x);
    if ge_zero(abs_of(x)) {
        lemma_clear_sign_keeps_value(abs_of(x));
    }
}

} // verus!
