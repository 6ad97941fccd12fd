//! The buy, sell, rebalance and refresh workflows, driven end to end with
//! concrete call-batch results.

use serpius::actions::Error;
use serpius::contract::Contract;
use serpius::DEC_PREC;

const OWNER: u64 = 1;
const ADMIN: u64 = 2;
const FUND: u64 = 3;
const BUYER: u64 = 4;

fn fresh(total_supply: u128) -> Contract {
    Contract::new(OWNER, total_supply, ADMIN, FUND)
}

/// Sets the cached snapshot through the refresh continuation.
fn set_snapshot(c: &mut Contract, snap: [u128; 4]) {
    let results: Vec<Option<u128>> = snap.iter().map(|b| Some(*b)).collect();
    c.callback_ini(&results);
}

#[test]
fn buy_rejects_zero_deposit() {
    let mut c = fresh(0);
    assert_eq!(c.buy_token(BUYER, 0), Err(Error::ZeroDeposit));
}

#[test]
fn buy_quote_requests_floor_amounts_at_one() {
    let mut c = fresh(0);
    // Fresh snapshot is all zeroes: each quote asks about one unit.
    let quotes = c.buy_token(BUYER, 10).unwrap();
    assert_eq!(quotes.len(), 3);
    for (i, q) in quotes.iter().enumerate() {
        assert_eq!(q.token_in, i + 1);
        assert_eq!(q.token_out, 0);
        assert_eq!(q.amount_in, 1);
    }
    assert_eq!(quotes[0].pool_id, 15);
    assert_eq!(quotes[1].pool_id, 24);
    assert_eq!(quotes[2].pool_id, 30);

    let mut c2 = fresh(0);
    set_snapshot(&mut c2, [0, 50, 0, 20]);
    let quotes2 = c2.buy_token(BUYER, 10).unwrap();
    assert_eq!(quotes2[0].amount_in, 50);
    assert_eq!(quotes2[1].amount_in, 1);
    assert_eq!(quotes2[2].amount_in, 20);
}

#[test]
fn buy_into_empty_basket_mints_deposit_split_98_1_1() {
    // With zero supply the price defaults to 1.0, so the deposit mints
    // itself, split 98% / 1% / 1% rounding down.
    let mut c = fresh(0);
    let deposit: u128 = 1000;
    c.buy_token(BUYER, deposit).unwrap();
    let outcome = c.callback_buy(BUYER, deposit, &vec![None, None, None]);
    assert_eq!(outcome.tokens, 1000);
    assert_eq!(outcome.recipient_share, 980);
    assert_eq!(outcome.admin_share, 10);
    assert_eq!(outcome.fund_share, 10);
    assert_eq!(outcome.wrap_amount, deposit);
    assert_eq!(c.ft_balance_of(BUYER), 980);
    assert_eq!(c.ft_balance_of(ADMIN), 10);
    assert_eq!(c.ft_balance_of(FUND), 10);
    assert_eq!(c.ft_total_supply(), 1000);
}

#[test]
fn buy_example_snapshot_prices_and_floors() {
    // Snapshot [100, 50, 30, 20] and supply 100 value the basket at 200,
    // so the price is 2.0; a deposit of 10 mints 5 units, the recipient
    // keeps 4 and each fee account gets 0 by floor rounding.
    let mut c = fresh(100);
    set_snapshot(&mut c, [100, 50, 30, 20]);
    c.buy_token(BUYER, 10).unwrap();
    let quotes = vec![Some(50), Some(30), Some(20)];
    let outcome = c.callback_buy(BUYER, 10, &quotes);
    assert_eq!(outcome.tokens, 5);
    assert_eq!(outcome.recipient_share, 4);
    assert_eq!(outcome.admin_share, 0);
    assert_eq!(outcome.fund_share, 0);
    assert_eq!(c.ft_total_supply(), 104);
    assert_eq!(c.ft_balance_of(BUYER), 4);
}

#[test]
fn buy_failed_quote_contributes_zero() {
    // Asset 2's quote failed and asset 3's cached balance is zero, so the
    // valuation counts only the native balance and asset 1's quote.
    let mut c = fresh(100);
    set_snapshot(&mut c, [100, 50, 30, 0]);
    c.buy_token(BUYER, 10).unwrap();
    let quotes = vec![Some(60), None, Some(999)];
    let outcome = c.callback_buy(BUYER, 10, &quotes);
    // total 160, price 1.6, tokens = 10 * 1e8 / 1.6e8 = 6
    assert_eq!(outcome.tokens, 6);
}

#[test]
fn sell_rejects_zero_and_short_balance() {
    let mut c = fresh(100);
    assert!(matches!(c.sell_token(BUYER, 0), Err(Error::ZeroTokens)));
    c.storage_deposit(BUYER);
    assert!(matches!(
        c.sell_token(BUYER, 5),
        Err(Error::InsufficientBalance)
    ));
    assert_eq!(c.ft_total_supply(), 100);
}

#[test]
fn sell_small_amount_burns_exactly_that_amount() {
    // A gross amount below 100 floors both fee shares to zero: the entry
    // moves nothing and the continuation burns exactly the gross amount
    // from the seller and the supply.
    let mut c = fresh(1000);
    set_snapshot(&mut c, [500, 0, 0, 0]);
    let plan = c.sell_token(OWNER, 50).unwrap();
    assert_eq!(plan.gross, 50);
    assert_eq!(plan.recipient_share, 49);
    assert!(plan.swaps.is_empty());
    assert_eq!(c.ft_balance_of(OWNER), 1000);
    assert_eq!(c.ft_total_supply(), 1000);
    let wnear = c.callback_sell(OWNER, plan.gross, &vec![None, None, None]);
    assert_eq!(c.ft_total_supply(), 950);
    assert_eq!(c.ft_balance_of(OWNER), 950);
    // valuation 500, supply 1000: price 0.5; 50 units pay 25 native.
    assert_eq!(wnear, 25);
}

#[test]
fn sell_reassigns_fee_then_burns_gross() {
    let mut c = fresh(1000);
    set_snapshot(&mut c, [0, 0, 0, 0]);
    let plan = c.sell_token(OWNER, 200).unwrap();
    // fee shares: 2 * 200 / 200 = 2 each; recipient share 196.
    assert_eq!(plan.recipient_share, 196);
    assert_eq!(c.ft_balance_of(OWNER), 996);
    assert_eq!(c.ft_balance_of(ADMIN), 2);
    assert_eq!(c.ft_balance_of(FUND), 2);
    // The fee split leaves the supply unchanged.
    assert_eq!(c.ft_total_supply(), 1000);
    c.callback_sell(OWNER, plan.gross, &vec![None, None, None]);
    // The burn removes the full gross amount.
    assert_eq!(c.ft_total_supply(), 800);
    assert_eq!(c.ft_balance_of(OWNER), 796);
}

#[test]
fn sell_builds_pro_rata_swaps() {
    let mut c = fresh(100);
    set_snapshot(&mut c, [10, 60, 25, 1]);
    let plan = c.sell_token(OWNER, 50).unwrap();
    // recipient share 49: 60*49/100 = 29, 25*49/100 = 12, 1*49/100 = 0.
    assert_eq!(plan.swaps.len(), 2);
    assert_eq!(plan.swaps[0].token_in, 1);
    assert_eq!(plan.swaps[0].amount_in, Some(29));
    assert_eq!(plan.swaps[0].token_out, 0);
    assert_eq!(plan.swaps[0].min_amount_out, 1);
    assert_eq!(plan.swaps[1].token_in, 2);
    assert_eq!(plan.swaps[1].amount_in, Some(12));
}

#[test]
fn buy_then_sell_round_trip_within_fee() {
    // Deposit 100 into an empty basket: the buyer is minted 98. Selling
    // those 98 against a basket still worth 100 pays back exactly 98.
    let mut c = fresh(0);
    let deposit: u128 = 100;
    c.buy_token(BUYER, deposit).unwrap();
    let outcome = c.callback_buy(BUYER, deposit, &vec![None, None, None]);
    assert_eq!(outcome.tokens, 100);
    assert_eq!(outcome.recipient_share, 98);
    assert_eq!(c.ft_total_supply(), 100);
    // The wrapped deposit lands in the exchange: the basket is worth 100.
    set_snapshot(&mut c, [100, 0, 0, 0]);
    let plan = c.sell_token(BUYER, outcome.recipient_share).unwrap();
    let wnear = c.callback_sell(BUYER, plan.gross, &vec![None, None, None]);
    assert_eq!(wnear, 98);
    assert_eq!(c.ft_balance_of(BUYER), 0);
}

#[test]
fn rebalance_requires_owner_then_valid_weights() {
    let mut c = fresh(100);
    set_snapshot(&mut c, [10, 20, 0, 5]);
    let w = vec![1000, 0, 0, 0];
    assert!(matches!(
        c.rebalance_portfolio(BUYER, &w),
        Err(Error::NotOwner)
    ));
    // A wrong caller is rejected before the weights are even looked at.
    assert!(matches!(
        c.rebalance_portfolio(BUYER, &vec![1, 2, 3, 4]),
        Err(Error::NotOwner)
    ));
    assert!(matches!(
        c.rebalance_portfolio(OWNER, &vec![999, 0, 0, 0]),
        Err(Error::InvalidWeights)
    ));
    assert!(matches!(
        c.rebalance_portfolio(OWNER, &vec![500, 300, 200, 1]),
        Err(Error::InvalidWeights)
    ));
    // A sum that overflows the integer width cannot be 1000 either.
    assert!(matches!(
        c.rebalance_portfolio(OWNER, &vec![u128::MAX, u128::MAX, 3, 4]),
        Err(Error::InvalidWeights)
    ));
    let swaps = c.rebalance_portfolio(OWNER, &w).unwrap();
    // Phase one liquidates each held asset in full.
    assert_eq!(swaps.len(), 2);
    assert_eq!(swaps[0].token_in, 1);
    assert_eq!(swaps[0].amount_in, Some(20));
    assert_eq!(swaps[0].token_out, 0);
    assert_eq!(swaps[1].token_in, 3);
    assert_eq!(swaps[1].amount_in, Some(5));
}

#[test]
fn reallocation_splits_native_by_weight() {
    let c = fresh(100);
    let w = vec![0, 500, 300, 200];
    let results = vec![Some(1000), Some(0), Some(0), Some(0)];
    let swaps = c.callback_retract(&w, &results).unwrap();
    assert_eq!(swaps.len(), 3);
    assert_eq!(swaps[0].token_in, 0);
    assert_eq!(swaps[0].token_out, 1);
    assert_eq!(swaps[0].amount_in, Some(500));
    assert_eq!(swaps[1].amount_in, Some(300));
    assert_eq!(swaps[2].amount_in, Some(200));
}

#[test]
fn reallocation_noop_for_all_native_target() {
    // Rebalance is idempotent under an all-native target: once everything
    // is native, phase two builds no instructions.
    let c = fresh(100);
    let w = vec![1000, 0, 0, 0];
    let results = vec![Some(12345), Some(0), Some(0), Some(0)];
    let swaps = c.callback_retract(&w, &results).unwrap();
    assert!(swaps.is_empty());
}

#[test]
fn reallocation_revalidates_weights_and_falls_back_to_cache() {
    let mut c = fresh(100);
    assert!(matches!(
        c.callback_retract(&vec![999, 0, 0, 0], &vec![Some(1), None, None, None]),
        Err(Error::InvalidWeights)
    ));
    // A failed native query falls back to the cached snapshot balance.
    set_snapshot(&mut c, [2000, 0, 0, 0]);
    let swaps = c
        .callback_retract(&vec![0, 1000, 0, 0], &vec![None, None, None, None])
        .unwrap();
    assert_eq!(swaps.len(), 1);
    assert_eq!(swaps[0].amount_in, Some(2000));
    // Sub-unit targets floor to zero and build nothing.
    let none = c
        .callback_retract(&vec![0, 400, 300, 300], &vec![Some(1), None, None, None])
        .unwrap();
    assert!(none.is_empty());
}

#[test]
fn snapshot_refresh_overwrites_successes_keeps_failures() {
    let mut c = fresh(100);
    set_snapshot(&mut c, [1, 2, 3, 4]);
    let results = vec![Some(10), None, Some(30), None];
    c.callback_ini(&results);
    let quotes = c.buy_token(BUYER, 1).unwrap();
    assert_eq!(quotes[0].amount_in, 2);
    assert_eq!(quotes[1].amount_in, 30);
    assert_eq!(quotes[2].amount_in, 4);
}

#[test]
fn sell_fee_boundary_at_one_hundred_units() {
    // 100 units is the smallest gross amount that assigns a fee: one unit
    // to each fee account.
    let mut c = fresh(1000);
    set_snapshot(&mut c, [0, 0, 0, 0]);
    c.sell_token(OWNER, 100).unwrap();
    assert_eq!(c.ft_balance_of(ADMIN), 1);
    assert_eq!(c.ft_balance_of(FUND), 1);
    assert_eq!(c.ft_balance_of(OWNER), 998);
    // One unit below the boundary, nothing moves.
    let mut c2 = fresh(1000);
    set_snapshot(&mut c2, [0, 0, 0, 0]);
    c2.sell_token(OWNER, 99).unwrap();
    assert_eq!(c2.ft_balance_of(ADMIN), 0);
    assert_eq!(c2.ft_balance_of(OWNER), 1000);
}

#[test]
fn buy_by_fee_account_accumulates_its_shares() {
    // The buyer may itself be a fee account; its shares accumulate.
    let mut c = fresh(0);
    c.buy_token(ADMIN, 1000).unwrap();
    let outcome = c.callback_buy(ADMIN, 1000, &vec![None, None, None]);
    assert_eq!(outcome.recipient_share, 980);
    assert_eq!(outcome.admin_share, 10);
    assert_eq!(c.ft_balance_of(ADMIN), 990);
    assert_eq!(c.ft_balance_of(FUND), 10);
    assert_eq!(c.ft_total_supply(), 1000);
}

#[test]
fn price_uses_overflow_fallback_for_huge_valuations() {
    // A valuation whose product with the price scale overflows takes the
    // divide-first path: the price loses low-order precision but the
    // workflow still completes.
    let mut c = fresh(DEC_PREC);
    let huge = u128::MAX / 2;
    set_snapshot(&mut c, [huge, 0, 0, 0]);
    c.buy_token(BUYER, DEC_PREC).unwrap();
    let outcome = c.callback_buy(BUYER, DEC_PREC, &vec![None, None, None]);
    // price = (huge / supply) * DEC_PREC exactly, since huge * DEC_PREC
    // overflows; tokens = deposit * DEC_PREC / price.
    let price = (huge / DEC_PREC) * DEC_PREC;
    assert_eq!(outcome.tokens, DEC_PREC * DEC_PREC / price);
}
