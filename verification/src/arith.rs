//! Overflow-safe fixed-point arithmetic: the two-path multiply-then-divide
//! helper used for every price, fee share and proportional swap amount.

use vstd::prelude::*;
use vstd::arithmetic::div_mod::{
    lemma_div_is_ordered, lemma_div_multiples_vanish, lemma_fundamental_div_mod,
};
use vstd::arithmetic::mul::{
    lemma_mul_is_associative, lemma_mul_is_commutative, lemma_mul_is_distributive_add,
    lemma_mul_nonnegative,
};

verus! {

/// The value the two-path helper computes: `(a * b) / c` when the product
/// fits the working width, else the precision-losing fallback `(a / c) * b`.
pub open spec fn mul_div_spec(a: u128, b: u128, c: u128) -> int
    recommends
        c > 0,
{
    if a * b <= u128::MAX {
        (a * b) / (c as int)
    } else {
        (a as int / c as int) * b
    }
}

/// The fallback path never exceeds the exact quotient:
/// `(a / c) * b <= (a * b) / c` for non-negative operands.
proof fn lemma_div_then_mul_le(a: int, b: int, c: int)
    requires
        0 <= a,
        0 <= b,
        0 < c,
    ensures
        (a / c) * b <= (a * b) / c,
{
    let q = a / c;
    let r = a % c;
    lemma_fundamental_div_mod(a, c);
    assert(a == c * q + r);
    assert(a * b == (c * q + r) * b) by {
        lemma_mul_is_commutative(a, b);
    }
    assert((c * q + r) * b == (c * q) * b + r * b) by {
        lemma_mul_is_distributive_add(b, c * q, r);
        lemma_mul_is_commutative(b, c * q + r);
        lemma_mul_is_commutative(b, c * q);
        lemma_mul_is_commutative(b, r);
    }
    assert(0 <= r * b) by {
        lemma_mul_nonnegative(r, b);
    }
    assert((c * q) * b == c * (q * b)) by {
        lemma_mul_is_associative(c, q, b);
    }
    lemma_div_is_ordered(c * (q * b), a * b, c);
    assert((c * (q * b)) / c == q * b) by {
        lemma_mul_is_commutative(c, q * b);
        lemma_div_multiples_vanish(q * b, c);
    }
}

/// Overflow helper law: whenever the exact quotient `(a * b) / c` fits the
/// working width, the two-path result is non-negative, never exceeds that
/// exact quotient, and itself fits the working width.
pub proof fn lemma_mul_div_bounds(a: u128, b: u128, c: u128)
    requires
        c > 0,
        (a as int * b as int) / (c as int) <= u128::MAX,
    ensures
        0 <= mul_div_spec(a, b, c) <= (a as int * b as int) / (c as int),
        mul_div_spec(a, b, c) <= u128::MAX,
{
    lemma_mul_nonnegative(a as int, b as int);
    lemma_div_is_ordered(0, a as int * b as int, c as int);
    if a * b > u128::MAX {
        lemma_div_then_mul_le(a as int, b as int, c as int);
        assert(0 <= (a as int / c as int) * b) by {
            lemma_mul_nonnegative(a as int / c as int, b as int);
        }
    }
}

/// Two-path overflow-safe `(a * b) / c`: multiply first for full precision
/// when the product fits, else divide first, losing low-order precision but
/// never overflowing.
pub fn mul_div(a: u128, b: u128, c: u128) -> (r: u128)
    requires
        c > 0,
        (a as int * b as int) / (c as int) <= u128::MAX,
    ensures
        r == mul_div_spec(a, b, c),
        r <= (a as int * b as int) / (c as int),
{
    proof {
        lemma_mul_div_bounds(a, b, c);
    }
    match a.checked_mul(b) {
        Some(product) => product / c,
        None => (a / c) * b,
    }
}

} // verus!
