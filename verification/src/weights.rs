//! Target weight vectors for rebalancing: one non-negative weight per basket
//! position, in parts per thousand, valid only when the weights sum to
//! exactly `WEIGHT_TOTAL`.

use vstd::prelude::*;
use crate::WEIGHT_TOTAL;

verus! {

/// Sum of the first `n` weights.
pub open spec fn spec_weight_sum_upto(w: Seq<u128>, n: int) -> int
    decreases n,
{
    if n <= 0 {
        0
    } else {
        spec_weight_sum_upto(w, n - 1) + w[n - 1]
    }
}

/// Sum of a weight vector, with unbounded integers.
pub open spec fn spec_weight_sum(w: Seq<u128>) -> int {
    spec_weight_sum_upto(w, w.len() as int)
}

/// Whether a weight vector sums to exactly `WEIGHT_TOTAL`. A sum that
/// exceeds the integer width cannot equal it either.
pub fn weights_are_valid(w: &Vec<u128>) -> (r: bool)
    ensures
        r == (spec_weight_sum(w@) == WEIGHT_TOTAL),
{
    let mut sum: u128 = 0;
    let mut overflowed: bool = false;
    let mut i: usize = 0;
    while i < w.len()
        invariant
            0 <= i <= w.len(),
            !overflowed ==> sum == spec_weight_sum_upto(w@, i as int),
            overflowed ==> spec_weight_sum_upto(w@, i as int) > u128::MAX,
        decreases w.len() - i,
    {
        if !overflowed {
            match sum.checked_add(w[i]) {
                Some(s) => {
                    sum = s;
                },
                None => {
                    overflowed = true;
                },
            }
        }
        i = i + 1;
    }
    if overflowed {
        false
    } else {
        sum == WEIGHT_TOTAL
    }
}

} // verus!
