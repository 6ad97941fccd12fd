//! Pricing engine: derives the unit price from the basket valuation and the
//! outstanding supply, and converts between native amounts and units at that
//! price. All prices are fixed-point with scale `DEC_PREC`.

use vstd::prelude::*;
use crate::arith::{mul_div, mul_div_spec};
use crate::{DEC_PREC, N_ASSETS};

verus! {

/// The unit price implied by a basket valuation and a supply: the valuation
/// scaled by `DEC_PREC` and divided by the supply, two-path overflow-safe.
/// An empty supply prices the unit at exactly 1.0 (`DEC_PREC`).
pub open spec fn spec_price(total_balance: u128, supply: u128) -> int {
    if supply == 0 {
        DEC_PREC as int
    } else {
        mul_div_spec(total_balance, DEC_PREC, supply)
    }
}

/// Units minted for a native deposit of `amount` at `price`; a zero price
/// falls back to the identity (one unit per native token).
pub open spec fn spec_tokens_for(amount: u128, price: u128) -> int {
    if price == 0 {
        amount as int
    } else {
        mul_div_spec(amount, DEC_PREC, price)
    }
}

/// Native amount owed for `tokens` units at `price`; a zero price falls back
/// to the identity.
pub open spec fn spec_native_for(price: u128, tokens: u128) -> int {
    if price == 0 {
        tokens as int
    } else {
        mul_div_spec(price, tokens, DEC_PREC)
    }
}

/// What one joined quote result adds to the basket valuation: a failed quote
/// contributes nothing, and so does a quote for an asset whose cached
/// snapshot balance is zero (its estimate is a stale artifact, not value).
pub open spec fn quote_contribution(
    snapshot: Seq<u128>,
    quotes: Seq<Option<u128>>,
    i: int,
) -> int
    recommends
        0 <= i < quotes.len(),
        i + 1 < snapshot.len(),
{
    match quotes[i] {
        Some(v) => if snapshot[i + 1] > 0 {
            v as int
        } else {
            0
        },
        None => 0,
    }
}

/// Sum of the first `n` quote contributions.
pub open spec fn quote_sum_upto(snapshot: Seq<u128>, quotes: Seq<Option<u128>>, n: int) -> int
    decreases n,
{
    if n <= 0 {
        0
    } else {
        quote_sum_upto(snapshot, quotes, n - 1) + quote_contribution(snapshot, quotes, n - 1)
    }
}

/// The joined basket valuation: the cached native deposit balance plus every
/// successful quote for an asset the snapshot knows to be held.
pub open spec fn spec_total_balance(snapshot: Seq<u128>, quotes: Seq<Option<u128>>) -> int {
    snapshot[0] + quote_sum_upto(snapshot, quotes, N_ASSETS as int)
}

/// Quote contributions are non-negative, so partial sums grow with `n`.
proof fn lemma_quote_sum_upto_le(
    snapshot: Seq<u128>,
    quotes: Seq<Option<u128>>,
    n: int,
    m: int,
)
    requires
        0 <= n <= m,
    ensures
        quote_sum_upto(snapshot, quotes, n) <= quote_sum_upto(snapshot, quotes, m),
    decreases m,
{
    if n < m {
        lemma_quote_sum_upto_le(snapshot, quotes, n, m - 1);
    }
}

/// Joins the quote results into the basket valuation.
pub fn total_balance_of(snapshot: &Vec<u128>, quotes: &Vec<Option<u128>>) -> (tb: u128)
    requires
        snapshot@.len() == N_ASSETS + 1,
        quotes@.len() == N_ASSETS,
        spec_total_balance(snapshot@, quotes@) <= u128::MAX,
    ensures
        tb == spec_total_balance(snapshot@, quotes@),
{
    let mut tb: u128 = snapshot[0];
    let mut i: usize = 0;
    while i < N_ASSETS
        invariant
            0 <= i <= N_ASSETS,
            snapshot@.len() == N_ASSETS + 1,
            quotes@.len() == N_ASSETS,
            spec_total_balance(snapshot@, quotes@) <= u128::MAX,
            tb == snapshot@[0] + quote_sum_upto(snapshot@, quotes@, i as int),
        decreases N_ASSETS - i,
    {
        proof {
            lemma_quote_sum_upto_le(snapshot@, quotes@, i + 1, N_ASSETS as int);
        }
        match quotes[i] {
            Some(v) => {
                if snapshot[i + 1] > 0 {
                    tb = tb + v;
                }
            },
            None => {},
        }
        i = i + 1;
    }
    tb
}

/// Computes the unit price from a joined valuation and the current supply.
pub fn price_of(total_balance: u128, supply: u128) -> (price: u128)
    requires
        supply > 0 ==> (total_balance as int * DEC_PREC as int) / (supply as int) <= u128::MAX,
    ensures
        price == spec_price(total_balance, supply),
{
    if supply > 0 {
        mul_div(total_balance, DEC_PREC, supply)
    } else {
        DEC_PREC
    }
}

/// Units minted for a native deposit at the given price.
pub fn tokens_for(amount: u128, price: u128) -> (tokens: u128)
    requires
        price > 0 ==> (amount as int * DEC_PREC as int) / (price as int) <= u128::MAX,
    ensures
        tokens == spec_tokens_for(amount, price),
{
    if price > 0 {
        mul_div(amount, DEC_PREC, price)
    } else {
        amount
    }
}

/// Native amount owed for the given units at the given price.
pub fn native_for(price: u128, tokens: u128) -> (wnear: u128)
    requires
        price > 0 ==> (price as int * tokens as int) / (DEC_PREC as int) <= u128::MAX,
    ensures
        wnear == spec_native_for(price, tokens),
{
    if price > 0 {
        mul_div(price, tokens, DEC_PREC)
    } else {
        tokens
    }
}

} // verus!
