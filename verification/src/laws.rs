//! Laws relating the workflow stages: what a buy mints into an empty
//! basket, what a sale removes, what a buy-then-sell round trip pays back,
//! and when a reallocation is a no-op. Each is stated over the same spec
//! functions the workflow contracts use.

use vstd::prelude::*;
use vstd::arithmetic::div_mod::{
    lemma_div_is_ordered, lemma_div_multiples_vanish, lemma_fundamental_div_mod,
    lemma_mod_division_less_than_divisor,
};
use vstd::arithmetic::mul::lemma_mul_inequality;
use crate::arith::mul_div_spec;
use crate::contract::{spec_fee_split, spec_reallocate_swaps, spec_reallocate_swaps_upto};
use crate::fees::{lemma_shares_bounded, spec_fee_share, spec_recipient_share};
use crate::pricing::{spec_native_for, spec_price, spec_tokens_for};
use crate::{DEC_PREC, FEE_PERC, N_ASSETS};

verus! {

/// Buying into an empty basket (zero supply) prices the unit at exactly
/// 1.0 whatever the quoted valuation, so a deposit mints exactly itself,
/// split 98% / 1% / 1% between recipient, administration and fund, each
/// share rounding down.
pub proof fn lemma_buy_empty_supply(deposit: u128, total_balance: u128)
    requires
        deposit > 0,
        deposit * DEC_PREC <= u128::MAX,
    ensures
        spec_price(total_balance, 0) == DEC_PREC,
        spec_tokens_for(deposit, DEC_PREC) == deposit,
        spec_recipient_share(deposit) == 98 * deposit / 100,
        spec_fee_share(deposit) == deposit / 100,
        spec_recipient_share(deposit) + 2 * spec_fee_share(deposit) <= deposit,
{
    assert(spec_tokens_for(deposit, DEC_PREC) == deposit) by {
        assert(deposit * DEC_PREC == DEC_PREC * deposit);
        lemma_div_multiples_vanish(deposit as int, DEC_PREC as int);
    }
    assert(spec_fee_share(deposit) == deposit / 100) by {
        assert(FEE_PERC * deposit == 2 * deposit);
        lemma_fundamental_div_mod(deposit as int, 100);
        lemma_mod_division_less_than_divisor(deposit as int, 100);
        let q = deposit as int / 100;
        let r = deposit as int % 100;
        assert(2 * deposit == 200 * q + 2 * r);
        assert(0 <= 2 * r < 200);
        vstd::arithmetic::div_mod::lemma_fundamental_div_mod_converse_div(
            2 * deposit,
            200,
            q,
            2 * r,
        );
    }
    lemma_shares_bounded(deposit);
}

/// Selling a gross amount below the fee granularity (both fee shares floor
/// to zero) removes exactly that amount from the seller's balance and
/// nothing from anyone else's: the entry's fee split moves nothing, and
/// the continuation burns the full gross amount. (The supply side is
/// stated on the workflow functions themselves: the entry keeps the total
/// supply unchanged and the continuation reduces it by exactly the gross
/// amount.)
pub proof fn lemma_sell_small_exact(
    bal: Map<u64, u128>,
    seller: u64,
    admin: u64,
    fund: u64,
    tokens: u128,
)
    requires
        0 < tokens < 100,
        bal.contains_key(seller),
        bal.contains_key(admin),
        bal.contains_key(fund),
        tokens <= bal[seller],
    ensures
        spec_fee_share(tokens) == 0,
        ({
            let split = spec_fee_split(bal, seller, admin, fund, 0);
            let burned = split.insert(seller, (split[seller] - tokens) as u128);
            burned =~= bal.insert(seller, (bal[seller] - tokens) as u128)
        }),
{
    assert(spec_fee_share(tokens) == 0) by {
        assert(FEE_PERC * tokens < 200);
    }
}

/// Round trip at an unchanged basket valuation. Buying with deposit `d`
/// into an empty basket mints `d` units; selling the recipient's minted
/// share back, while the basket is still worth `d`, pays out at least that
/// share and at most the deposit — the deposit less the fee, up to
/// rounding. When the deposit is a multiple of 100 the payout is exactly
/// the 98% share. (Stated for sales below the fee granularity, where the
/// seller's minted share covers the burn.)
pub proof fn lemma_buy_sell_round_trip(d: u128)
    requires
        0 < d,
        spec_recipient_share(d) < 100,
    ensures
        ({
            let r = spec_recipient_share(d) as u128;
            let fee = spec_fee_share(d) as u128;
            let supply = (r + fee + fee) as u128;
            let price = spec_price(d, supply) as u128;
            let wnear = spec_native_for(price, r);
            &&& spec_tokens_for(d, spec_price(d, 0) as u128) == d
            &&& r <= wnear <= d
            &&& (d % 100 == 0 ==> wnear == r)
        }),
{
    let p = DEC_PREC as int;
    let di = d as int;
    lemma_shares_bounded(d);
    let r = spec_recipient_share(d) as u128;
    let fee = spec_fee_share(d) as u128;
    let supply = (r + fee + fee) as u128;
    let si = supply as int;
    assert(98 * d < 10000);  // from the fee-granularity bound on the share
    assert(di <= 102);
    assert(spec_tokens_for(d, spec_price(d, 0) as u128) == d) by {
        assert(d * DEC_PREC == DEC_PREC * d);
        lemma_div_multiples_vanish(di, p);
    }
    if supply == 0 {
        // Degenerate deposit: every share floored to zero.
        assert(r == 0);
        assert(spec_price(d, 0) == p);
        assert(spec_native_for(DEC_PREC, 0) == 0) by {
            assert(DEC_PREC * 0 == 0) by {
                vstd::arithmetic::mul::lemma_mul_by_zero_is_zero(DEC_PREC as int);
            }
        }
    } else {
        let price_i = mul_div_spec(d, DEC_PREC, supply);
        assert(d * DEC_PREC <= u128::MAX);
        assert(price_i == (di * p) / si);
        // The basket is worth at least the supply, so the price is at least 1.0.
        assert(si <= di);
        assert(p * si <= di * p) by {
            lemma_mul_inequality(si, di, p);
        }
        assert(price_i >= p) by {
            lemma_div_is_ordered(p * si, di * p, si);
            lemma_div_multiples_vanish(p, si);
        }
        let price = price_i as u128;
        // price * r stays far below the integer width: d <= 102.
        assert(price_i <= di * p) by {
            lemma_div_is_ordered_by_denominator_one(di * p, si);
        }
        assert(price_i * r <= 102 * p * 102) by {
            vstd::arithmetic::mul::lemma_mul_upper_bound(price_i, 102 * p, r as int, 102);
        }
        let wnear = spec_native_for(price, r);
        assert(price > 0);
        assert(wnear == (price_i * r) / p);
        // Lower bound: the price is at least 1.0, so the payout covers the share.
        assert(p * r <= price_i * r) by {
            lemma_mul_inequality(p, price_i, r as int);
        }
        assert(wnear >= r) by {
            lemma_div_is_ordered(p * (r as int), price_i * (r as int), p);
            assert(p * (r as int) == (r as int) * p);
            lemma_div_multiples_vanish(r as int, p);
        }
        // Upper bound: price * supply <= d * DEC_PREC and r <= supply.
        assert(price_i * si <= di * p) by {
            lemma_fundamental_div_mod(di * p, si);
            lemma_mod_division_less_than_divisor(di * p, si);
            assert(si * price_i <= di * p);
        }
        assert(r <= supply);
        assert(price_i * (r as int) <= price_i * si) by {
            lemma_mul_inequality(r as int, si, price_i);
            assert((r as int) * price_i == price_i * (r as int));
            assert(si * price_i == price_i * si);
        }
        assert(wnear <= d) by {
            lemma_div_is_ordered(price_i * (r as int), di * p, p);
            assert((di * p) / p == di) by {
                assert(di * p == p * di);
                lemma_div_multiples_vanish(di, p);
            }
        }
        if d % 100 == 0 {
            // The shares split the deposit exactly, so the supply equals the
            // deposit, the price is exactly 1.0, and the payout is exactly
            // the recipient's share.
            lemma_fundamental_div_mod(di, 100);
            let k = di / 100;
            assert(di == 100 * k);
            assert(r == 98 * k) by {
                assert((100 - FEE_PERC) * d == 100 * (98 * k));
                vstd::arithmetic::div_mod::lemma_fundamental_div_mod_converse_div(
                    (100 - FEE_PERC) * d,
                    100,
                    98 * k,
                    0,
                );
            }
            assert(fee == k) by {
                assert(FEE_PERC * d == 200 * k);
                vstd::arithmetic::div_mod::lemma_fundamental_div_mod_converse_div(
                    FEE_PERC * d,
                    200,
                    k,
                    0,
                );
            }
            assert(si == di);
            assert(price_i == p) by {
                assert(di * p == p * di);
                lemma_div_multiples_vanish(p, di);
                assert((di * p) / di == p);
            }
            assert(wnear == r) by {
                assert(price_i * (r as int) == p * (r as int));
                assert(p * (r as int) == (r as int) * p);
                lemma_div_multiples_vanish(r as int, p);
            }
        }
    }
}

/// A division by a denominator of at least one never exceeds the numerator.
proof fn lemma_div_is_ordered_by_denominator_one(x: int, d: int)
    requires
        0 <= x,
        1 <= d,
    ensures
        x / d <= x,
{
    lemma_fundamental_div_mod(x, d);
    lemma_mod_division_less_than_divisor(x, d);
    if x / d > x {
        lemma_mul_inequality(x + 1, x / d, d);
        assert((x + 1) * d >= x + 1);
    }
}

/// A no-op reallocation target: when every tracked asset's target amount
/// floors to zero — in particular when the target keeps the whole basket
/// native — phase two of a rebalance builds no swap instructions, so
/// re-running a rebalance whose allocation is already met changes nothing.
pub proof fn lemma_reallocate_noop(balance_native: u128, w: Seq<u128>)
    requires
        w.len() == N_ASSETS + 1,
        forall|i: int| 1 <= i <= N_ASSETS ==> w[i] == 0,
    ensures
        spec_reallocate_swaps(balance_native, w).len() == 0,
{
    lemma_reallocate_noop_upto(balance_native, w, N_ASSETS as int);
}

proof fn lemma_reallocate_noop_upto(balance_native: u128, w: Seq<u128>, n: int)
    requires
        n <= N_ASSETS,
        w.len() == N_ASSETS + 1,
        forall|i: int| 1 <= i <= N_ASSETS ==> w[i] == 0,
    ensures
        spec_reallocate_swaps_upto(balance_native, w, n).len() == 0,
    decreases n,
{
    if n > 0 {
        lemma_reallocate_noop_upto(balance_native, w, n - 1);
        assert(balance_native * w[n] == 0) by {
            vstd::arithmetic::mul::lemma_mul_by_zero_is_zero(balance_native as int);
        }
        assert(mul_div_spec(balance_native, w[n], crate::WEIGHT_TOTAL) == 0);
    }
}

} // verus!
