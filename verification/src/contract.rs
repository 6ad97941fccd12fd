//! The fund state and the decision step of each workflow. Every function
//! here is synchronous: it receives the joined results of the previous call
//! batch as plain values, mutates the ledger and snapshot, and returns the
//! instructions for the next batch. The caller performs the external calls
//! and invokes the matching continuation with their results.

use vstd::prelude::*;
use crate::actions::{spec_pool_id, pool_id_of, Error, QuoteRequest, SwapAction, NATIVE};
use crate::arith::{mul_div, mul_div_spec};
use crate::fees::{fee_share, lemma_shares_bounded, recipient_share, spec_fee_share,
    spec_recipient_share};
use crate::ledger::Ledger;
use crate::pricing::{
    native_for, price_of, spec_native_for, spec_price, spec_tokens_for, spec_total_balance,
    tokens_for, total_balance_of,
};
use crate::weights::{spec_weight_sum, weights_are_valid};
use crate::{DEC_PREC, FEE_PERC, N_ASSETS, WEIGHT_TOTAL};

verus! {

/// What the pricing/minting continuation of a buy settles: the units minted
/// and their split, and the native deposit to wrap and forward into the
/// exchange.
#[derive(Clone, Copy, Debug, PartialEq, Eq)]
pub struct BuyOutcome {
    pub tokens: u128,
    pub recipient_share: u128,
    pub admin_share: u128,
    pub fund_share: u128,
    pub wrap_amount: u128,
}

/// The fund: three fixed identities, the unit ledger, and the cached
/// per-position exchange balance snapshot (`ex_balances[0]` is the native
/// deposit balance, `ex_balances[i]` for `1 <= i <= N_ASSETS` the balance of
/// tracked asset `i`).
pub struct Contract {
    pub owner_account: u64,
    pub admin_account: u64,
    pub fund_account: u64,
    pub token: Ledger,
    pub ex_balances: Vec<u128>,
}

/// Minting `rec` to a recipient and `fee` to each of the administration and
/// fund accounts, in that order.
pub open spec fn spec_mint_shares(
    bal: Map<u64, u128>,
    account: u64,
    admin: u64,
    fund: u64,
    rec: u128,
    fee: u128,
) -> Map<u64, u128> {
    let m1 = bal.insert(account, (bal[account] + rec) as u128);
    let m2 = m1.insert(admin, (m1[admin] + fee) as u128);
    m2.insert(fund, (m2[fund] + fee) as u128)
}

/// What the sell entry settles before any external call: the swap batch
/// that liquidates the basket's share of the redeemed units, the
/// recipient's share those swaps are sized by, and the gross amount the
/// burning continuation (`callback_sell`) expects back.
pub struct SellPlan {
    pub swaps: Vec<SwapAction>,
    pub recipient_share: u128,
    pub gross: u128,
}

/// Reassigning the fee on a sale: `fee + fee` units move from the seller to
/// the administration and fund accounts; the supply does not change.
pub open spec fn spec_fee_split(
    bal: Map<u64, u128>,
    seller: u64,
    admin: u64,
    fund: u64,
    fee: u128,
) -> Map<u64, u128> {
    let m1 = bal.insert(seller, (bal[seller] - (fee + fee)) as u128);
    let m2 = m1.insert(admin, (m1[admin] + fee) as u128);
    m2.insert(fund, (m2[fund] + fee) as u128)
}

/// The two fee deposits of a sale stay within the integer width.
pub open spec fn spec_fee_split_ok(
    bal: Map<u64, u128>,
    seller: u64,
    admin: u64,
    fund: u64,
    fee: u128,
) -> bool {
    let m1 = bal.insert(seller, (bal[seller] - (fee + fee)) as u128);
    let m2 = m1.insert(admin, (m1[admin] + fee) as u128);
    &&& m1[admin] + fee <= u128::MAX
    &&& m2[fund] + fee <= u128::MAX
}

/// The three mint steps stay registered and within the integer width.
pub open spec fn spec_mint_shares_ok(
    bal: Map<u64, u128>,
    total: u128,
    account: u64,
    admin: u64,
    fund: u64,
    rec: u128,
    fee: u128,
) -> bool {
    let m1 = bal.insert(account, (bal[account] + rec) as u128);
    let m2 = m1.insert(admin, (m1[admin] + fee) as u128);
    &&& bal.contains_key(account)
    &&& bal.contains_key(admin)
    &&& bal.contains_key(fund)
    &&& bal[account] + rec <= u128::MAX
    &&& m1[admin] + fee <= u128::MAX
    &&& m2[fund] + fee <= u128::MAX
    &&& total + rec + fee + fee <= u128::MAX
}

/// The swap batch liquidating the basket's share of a redemption: one
/// instruction per tracked asset in `1..=n` whose pro-rata amount
/// `snap[i] * rec / supply` (two-path overflow-safe) is strictly positive,
/// converting that amount of the asset into the native currency with a
/// minimal slippage floor.
pub open spec fn spec_sell_swaps_upto(snap: Seq<u128>, rec: u128, supply: u128, n: int) -> Seq<
    SwapAction,
>
    decreases n,
{
    if n <= 0 {
        Seq::empty()
    } else {
        let pre = spec_sell_swaps_upto(snap, rec, supply, n - 1);
        let v = mul_div_spec(snap[n], rec, supply);
        if v > 0 {
            pre.push(
                SwapAction {
                    pool_id: spec_pool_id(n),
                    token_in: n as usize,
                    amount_in: Some(v as u128),
                    token_out: NATIVE,
                    min_amount_out: 1,
                },
            )
        } else {
            pre
        }
    }
}

pub open spec fn spec_sell_swaps(snap: Seq<u128>, rec: u128, supply: u128) -> Seq<SwapAction> {
    spec_sell_swaps_upto(snap, rec, supply, N_ASSETS as int)
}

/// Phase one of a rebalance: one instruction per tracked asset in `1..=n`
/// with a nonzero cached balance, converting that full balance into the
/// native currency.
pub open spec fn spec_liquidate_swaps_upto(snap: Seq<u128>, n: int) -> Seq<SwapAction>
    decreases n,
{
    if n <= 0 {
        Seq::empty()
    } else {
        let pre = spec_liquidate_swaps_upto(snap, n - 1);
        if snap[n] > 0 {
            pre.push(
                SwapAction {
                    pool_id: spec_pool_id(n),
                    token_in: n as usize,
                    amount_in: Some(snap[n]),
                    token_out: NATIVE,
                    min_amount_out: 1,
                },
            )
        } else {
            pre
        }
    }
}

pub open spec fn spec_liquidate_swaps(snap: Seq<u128>) -> Seq<SwapAction> {
    spec_liquidate_swaps_upto(snap, N_ASSETS as int)
}

/// Phase two of a rebalance: one instruction per tracked asset in `1..=n`
/// whose target amount `balance_native * w[i] / WEIGHT_TOTAL` (two-path
/// overflow-safe) is strictly positive, converting that much native
/// currency into the asset.
pub open spec fn spec_reallocate_swaps_upto(balance_native: u128, w: Seq<u128>, n: int) -> Seq<
    SwapAction,
>
    decreases n,
{
    if n <= 0 {
        Seq::empty()
    } else {
        let pre = spec_reallocate_swaps_upto(balance_native, w, n - 1);
        let v = mul_div_spec(balance_native, w[n], WEIGHT_TOTAL);
        if v > 0 {
            pre.push(
                SwapAction {
                    pool_id: spec_pool_id(n),
                    token_in: NATIVE,
                    amount_in: Some(v as u128),
                    token_out: n as usize,
                    min_amount_out: 1,
                },
            )
        } else {
            pre
        }
    }
}

pub open spec fn spec_reallocate_swaps(balance_native: u128, w: Seq<u128>) -> Seq<SwapAction> {
    spec_reallocate_swaps_upto(balance_native, w, N_ASSETS as int)
}

impl Contract {
    /// Structural well-formedness: the snapshot covers every basket position
    /// and the three fixed identities stay registered.
    pub open spec fn wf(&self) -> bool {
        &&& self.ex_balances@.len() == N_ASSETS + 1
        &&& self.token.balances().contains_key(self.owner_account)
        &&& self.token.balances().contains_key(self.admin_account)
        &&& self.token.balances().contains_key(self.fund_account)
    }

    /// The identities and the snapshot are those of `other`; only the ledger
    /// may differ.
    pub open spec fn unchanged_but_ledger(&self, other: &Contract) -> bool {
        &&& self.owner_account == other.owner_account
        &&& self.admin_account == other.admin_account
        &&& self.fund_account == other.fund_account
        &&& self.ex_balances == other.ex_balances
    }

    /// Creates the fund: registers the three identities and mints the whole
    /// initial supply to the owner.
    pub fn new(owner_id: u64, total_supply: u128, admin_id: u64, fund_id: u64) -> (c: Contract)
        requires
            owner_id != admin_id,
            owner_id != fund_id,
            admin_id != fund_id,
        ensures
            c.wf(),
            c.owner_account == owner_id,
            c.admin_account == admin_id,
            c.fund_account == fund_id,
            c.token.total() == total_supply,
            c.token.spec_balance_of(owner_id) == total_supply,
            c.token.spec_balance_of(admin_id) == 0,
            c.token.spec_balance_of(fund_id) == 0,
            c.token.balances().dom() =~= set![owner_id, admin_id, fund_id],
            c.ex_balances@.len() == N_ASSETS + 1,
            forall|i: int| 0 <= i <= N_ASSETS ==> c.ex_balances@[i] == 0,
    {
        let mut token = Ledger::new();
        token.internal_register_account(owner_id);
        token.internal_register_account(admin_id);
        token.internal_register_account(fund_id);
        token.internal_deposit(owner_id, total_supply);
        let mut ex_balances: Vec<u128> = Vec::new();
        let mut i: usize = 0;
        while i < N_ASSETS + 1
            invariant
                0 <= i <= N_ASSETS + 1,
                ex_balances@.len() == i,
                forall|j: int| 0 <= j < i ==> ex_balances@[j] == 0,
            decreases N_ASSETS + 1 - i,
        {
            ex_balances.push(0);
            i = i + 1;
        }
        Contract {
            owner_account: owner_id,
            admin_account: admin_id,
            fund_account: fund_id,
            token,
            ex_balances,
        }
    }

    /// Joins a snapshot-refresh batch: each successful deposit-balance query
    /// overwrites its position, a failed one leaves the cached value as it
    /// was. This is the only writer of the snapshot.
    pub fn callback_ini(&mut self, results: &Vec<Option<u128>>)
        requires
            old(self).wf(),
            results@.len() == N_ASSETS + 1,
        ensures
            final(self).wf(),
            final(self).unchanged_but_snapshot(old(self)),
            forall|i: int|
                0 <= i <= N_ASSETS ==> final(self).ex_balances@[i] == (match results@[i] {
                    Some(b) => b,
                    None => old(self).ex_balances@[i],
                }),
    {
        let mut i: usize = 0;
        while i < N_ASSETS + 1
            invariant
                0 <= i <= N_ASSETS + 1,
                self.wf(),
                results@.len() == N_ASSETS + 1,
                self.owner_account == old(self).owner_account,
                self.admin_account == old(self).admin_account,
                self.fund_account == old(self).fund_account,
                self.token == old(self).token,
                forall|j: int|
                    0 <= j < i ==> self.ex_balances@[j] == (match results@[j] {
                        Some(b) => b,
                        None => old(self).ex_balances@[j],
                    }),
                forall|j: int|
                    i <= j <= N_ASSETS ==> self.ex_balances@[j] == old(self).ex_balances@[j],
            decreases N_ASSETS + 1 - i,
        {
            match results[i] {
                Some(b) => {
                    self.ex_balances.set(i, b);
                },
                None => {},
            }
            i = i + 1;
        }
    }

    /// The identities are those of `other` and the ledger is unchanged; only
    /// the snapshot may differ.
    pub open spec fn unchanged_but_snapshot(&self, other: &Contract) -> bool {
        &&& self.owner_account == other.owner_account
        &&& self.admin_account == other.admin_account
        &&& self.fund_account == other.fund_account
        &&& self.token == other.token
        &&& self.ex_balances@.len() == other.ex_balances@.len()
    }

    /// The quote fan-out both buy and sell use: for each tracked asset, ask
    /// the native value of its cached snapshot balance, floored at one unit
    /// to avoid a degenerate zero-amount query.
    pub open spec fn spec_buy_quotes(snap: Seq<u128>) -> Seq<QuoteRequest> {
        Seq::new(
            N_ASSETS as nat,
            |i: int|
                QuoteRequest {
                    pool_id: spec_pool_id(i + 1),
                    token_in: (i + 1) as usize,
                    amount_in: if snap[i + 1] == 0 {
                        1u128
                    } else {
                        snap[i + 1]
                    },
                    token_out: NATIVE,
                },
        )
    }

    /// Buy entry: rejects an empty deposit, registers the caller's account
    /// if absent, and returns the quote fan-out whose joined results the
    /// pricing continuation (`callback_buy`) expects.
    pub fn buy_token(&mut self, caller: u64, deposit: u128) -> (r: Result<
        Vec<QuoteRequest>,
        Error,
    >)
        requires
            old(self).wf(),
        ensures
            final(self).wf(),
            deposit == 0 ==> {
                &&& r == Err::<Vec<QuoteRequest>, Error>(Error::ZeroDeposit)
                &&& *final(self) == *old(self)
            },
            deposit > 0 ==> {
                &&& final(self).unchanged_but_ledger(old(self))
                &&& final(self).token.total() == old(self).token.total()
                &&& final(self).token.balances() == (if old(self).token.balances().contains_key(
                    caller,
                ) {
                    old(self).token.balances()
                } else {
                    old(self).token.balances().insert(caller, 0)
                })
                &&& r is Ok
                &&& r->Ok_0@ == Self::spec_buy_quotes(old(self).ex_balances@)
            },
    {
        if deposit == 0 {
            return Err(Error::ZeroDeposit);
        }
        if !self.token.contains_account(caller) {
            self.token.internal_register_account(caller);
        }
        Ok(self.quote_requests())
    }

    /// The quote fan-out for the current snapshot.
    pub fn quote_requests(&self) -> (quotes: Vec<QuoteRequest>)
        requires
            self.wf(),
        ensures
            quotes@ == Self::spec_buy_quotes(self.ex_balances@),
    {
        let mut quotes: Vec<QuoteRequest> = Vec::new();
        let mut i: usize = 0;
        while i < N_ASSETS
            invariant
                0 <= i <= N_ASSETS,
                self.ex_balances@.len() == N_ASSETS + 1,
                quotes@.len() == i,
                forall|j: int|
                    0 <= j < i ==> quotes@[j] == Self::spec_buy_quotes(self.ex_balances@)[j],
            decreases N_ASSETS - i,
        {
            let cached = self.ex_balances[i + 1];
            quotes.push(
                QuoteRequest {
                    pool_id: pool_id_of(i + 1),
                    token_in: i + 1,
                    amount_in: if cached == 0 {
                        1
                    } else {
                        cached
                    },
                    token_out: NATIVE,
                },
            );
            i = i + 1;
        }
        proof {
            assert(quotes@ =~= Self::spec_buy_quotes(self.ex_balances@));
        }
        quotes
    }

    /// Everything the pricing/minting continuation of a buy needs in order
    /// to stay within the integer width, for the valuation its quote results
    /// imply. The caller checks this before invoking the continuation and
    /// aborts the workflow otherwise.
    pub open spec fn spec_callback_buy_ok(
        &self,
        account: u64,
        amount: u128,
        quotes: Seq<Option<u128>>,
    ) -> bool {
        let tb_i = spec_total_balance(self.ex_balances@, quotes);
        let supply = self.token.total();
        let price = spec_price(tb_i as u128, supply) as u128;
        let tokens = spec_tokens_for(amount, price) as u128;
        let rec = spec_recipient_share(tokens) as u128;
        let fee = spec_fee_share(tokens) as u128;
        &&& tb_i <= u128::MAX
        &&& (supply > 0 ==> (tb_i * DEC_PREC) / (supply as int) <= u128::MAX)
        &&& (price > 0 ==> (amount as int * DEC_PREC as int) / (price as int) <= u128::MAX)
        &&& (100 - FEE_PERC) * tokens <= u128::MAX
        &&& spec_mint_shares_ok(
            self.token.balances(),
            supply,
            account,
            self.admin_account,
            self.fund_account,
            rec,
            fee,
        )
    }

    /// Pricing/minting continuation of a buy. Joins the quote results into a
    /// basket valuation, prices the unit against the pre-deposit supply (so a
    /// depositor is not diluted by their own deposit), and mints the priced
    /// units split between the buyer and the two fee accounts. The returned
    /// outcome carries the native deposit to wrap and forward; a later
    /// failure there is not rolled back.
    pub fn callback_buy(
        &mut self,
        account: u64,
        amount: u128,
        quotes: &Vec<Option<u128>>,
    ) -> (outcome: BuyOutcome)
        requires
            old(self).wf(),
            quotes@.len() == N_ASSETS,
            old(self).spec_callback_buy_ok(account, amount, quotes@),
        ensures
            final(self).wf(),
            final(self).unchanged_but_ledger(old(self)),
            ({
                let tb = spec_total_balance(old(self).ex_balances@, quotes@) as u128;
                let price = spec_price(tb, old(self).token.total()) as u128;
                let tokens = spec_tokens_for(amount, price) as u128;
                let rec = spec_recipient_share(tokens) as u128;
                let fee = spec_fee_share(tokens) as u128;
                &&& outcome.tokens == tokens
                &&& outcome.recipient_share == rec
                &&& outcome.admin_share == fee
                &&& outcome.fund_share == fee
                &&& outcome.wrap_amount == amount
                &&& final(self).token.balances() == spec_mint_shares(
                    old(self).token.balances(),
                    account,
                    old(self).admin_account,
                    old(self).fund_account,
                    rec,
                    fee,
                )
                &&& final(self).token.total() == old(self).token.total() + rec + fee + fee
            }),
    {
        let tb = total_balance_of(&self.ex_balances, quotes);
        let supply = self.token.ft_total_supply();
        let price = price_of(tb, supply);
        let tokens = tokens_for(amount, price);
        let rec = recipient_share(tokens);
        let fee = fee_share(tokens);
        self.token.internal_deposit(account, rec);
        let admin = self.admin_account;
        self.token.internal_deposit(admin, fee);
        let fund = self.fund_account;
        self.token.internal_deposit(fund, fee);
        BuyOutcome {
            tokens,
            recipient_share: rec,
            admin_share: fee,
            fund_share: fee,
            wrap_amount: amount,
        }
    }

    /// Everything the sell entry needs in order to stay within the integer
    /// width on its accepting path. An input that fails the entry's own
    /// checks (zero amount, short balance) is rejected regardless.
    pub open spec fn spec_sell_ok(&self, caller: u64, tokens: u128) -> bool {
        let rec = spec_recipient_share(tokens) as u128;
        let fee = spec_fee_share(tokens) as u128;
        let supply = self.token.total();
        tokens > 0 && self.token.spec_balance_of(caller) >= tokens ==> {
            &&& (100 - FEE_PERC) * tokens <= u128::MAX
            &&& tokens <= supply
            &&& spec_fee_split_ok(
                self.token.balances(),
                caller,
                self.admin_account,
                self.fund_account,
                fee,
            )
            &&& forall|i: int|
                1 <= i <= N_ASSETS ==> (self.ex_balances@[i] as int * rec as int) / (
                supply as int) <= u128::MAX
        }
    }

    /// Sell entry. Rejects a zero amount and a short balance before any
    /// state change or external call. Otherwise reassigns the fee shares
    /// from the seller to the administration and fund accounts (the supply
    /// does not change yet), sizes one liquidating swap per held asset from
    /// the recipient's share, and returns the plan whose joined quote
    /// results the burning continuation expects.
    pub fn sell_token(&mut self, caller: u64, tokens: u128) -> (r: Result<SellPlan, Error>)
        requires
            old(self).wf(),
            old(self).spec_sell_ok(caller, tokens),
        ensures
            final(self).wf(),
            final(self).unchanged_but_ledger(old(self)),
            tokens == 0 ==> {
                &&& r == Err::<SellPlan, Error>(Error::ZeroTokens)
                &&& *final(self) == *old(self)
            },
            tokens > 0 && old(self).token.spec_balance_of(caller) < tokens ==> {
                &&& r == Err::<SellPlan, Error>(Error::InsufficientBalance)
                &&& *final(self) == *old(self)
            },
            tokens > 0 && old(self).token.spec_balance_of(caller) >= tokens ==> {
                let rec = spec_recipient_share(tokens) as u128;
                let fee = spec_fee_share(tokens) as u128;
                &&& final(self).token.balances() == spec_fee_split(
                    old(self).token.balances(),
                    caller,
                    old(self).admin_account,
                    old(self).fund_account,
                    fee,
                )
                &&& final(self).token.total() == old(self).token.total()
                &&& r is Ok
                &&& r->Ok_0.swaps@ == spec_sell_swaps(
                    old(self).ex_balances@,
                    rec,
                    old(self).token.total(),
                )
                &&& r->Ok_0.recipient_share == rec
                &&& r->Ok_0.gross == tokens
            },
    {
        if tokens == 0 {
            return Err(Error::ZeroTokens);
        }
        if self.token.ft_balance_of(caller) < tokens {
            return Err(Error::InsufficientBalance);
        }
        proof {
            lemma_shares_bounded(tokens);
        }
        let rec = recipient_share(tokens);
        let fee = fee_share(tokens);
        self.token.internal_withdraw(caller, fee + fee);
        let admin = self.admin_account;
        self.token.internal_deposit(admin, fee);
        let fund = self.fund_account;
        self.token.internal_deposit(fund, fee);
        let supply = self.token.ft_total_supply();
        let mut swaps: Vec<SwapAction> = Vec::new();
        let mut x: usize = 0;
        while x < N_ASSETS
            invariant
                0 <= x <= N_ASSETS,
                self.ex_balances@.len() == N_ASSETS + 1,
                supply > 0,
                forall|i: int|
                    1 <= i <= N_ASSETS ==> (self.ex_balances@[i] as int * rec as int) / (
                    supply as int) <= u128::MAX,
                swaps@ == spec_sell_swaps_upto(self.ex_balances@, rec, supply, x as int),
            decreases N_ASSETS - x,
        {
            let value = mul_div(self.ex_balances[x + 1], rec, supply);
            if value > 0 {
                swaps.push(
                    SwapAction {
                        pool_id: pool_id_of(x + 1),
                        token_in: x + 1,
                        amount_in: Some(value),
                        token_out: NATIVE,
                        min_amount_out: 1,
                    },
                );
            }
            x = x + 1;
        }
        Ok(SellPlan { swaps, recipient_share: rec, gross: tokens })
    }

    /// Everything the burning continuation of a sale needs in order to stay
    /// within the integer width and the seller's remaining balance, for the
    /// valuation its quote results imply.
    pub open spec fn spec_callback_sell_ok(
        &self,
        account: u64,
        tokens: u128,
        quotes: Seq<Option<u128>>,
    ) -> bool {
        let tb_i = spec_total_balance(self.ex_balances@, quotes);
        let supply = self.token.total();
        let price = spec_price(tb_i as u128, supply) as u128;
        &&& tb_i <= u128::MAX
        &&& (supply > 0 ==> (tb_i * DEC_PREC) / (supply as int) <= u128::MAX)
        &&& (price > 0 ==> (price as int * tokens as int) / (DEC_PREC as int) <= u128::MAX)
        &&& self.token.balances().contains_key(account)
        &&& tokens <= self.token.balances()[account]
        &&& tokens <= supply
    }

    /// Burning continuation of a sale. Joins the quote results into a basket
    /// valuation exactly as the buy continuation does, derives the unit
    /// price, computes the native amount owed for the full redeemed amount,
    /// and burns that full amount from the seller — the one step that
    /// reduces the total supply. The returned native amount is what the
    /// caller withdraws, unwraps and transfers to the seller; a failure
    /// there is not rolled back.
    pub fn callback_sell(
        &mut self,
        account: u64,
        tokens: u128,
        quotes: &Vec<Option<u128>>,
    ) -> (wnear: u128)
        requires
            old(self).wf(),
            quotes@.len() == N_ASSETS,
            old(self).spec_callback_sell_ok(account, tokens, quotes@),
        ensures
            final(self).wf(),
            final(self).unchanged_but_ledger(old(self)),
            ({
                let tb = spec_total_balance(old(self).ex_balances@, quotes@) as u128;
                let price = spec_price(tb, old(self).token.total()) as u128;
                &&& wnear == spec_native_for(price, tokens)
                &&& final(self).token.balances() == old(self).token.balances().insert(
                    account,
                    (old(self).token.balances()[account] - tokens) as u128,
                )
                &&& final(self).token.total() == old(self).token.total() - tokens
            }),
    {
        let tb = total_balance_of(&self.ex_balances, quotes);
        let supply = self.token.ft_total_supply();
        let price = price_of(tb, supply);
        let wnear = native_for(price, tokens);
        self.token.internal_withdraw(account, tokens);
        wnear
    }

    pub fn ft_total_supply(&self) -> (r: u128)
        ensures
            r == self.token.total(),
    {
        self.token.ft_total_supply()
    }

    pub fn ft_balance_of(&self, account: u64) -> (r: u128)
        ensures
            r == self.token.spec_balance_of(account),
    {
        self.token.ft_balance_of(account)
    }

    /// Registers an account so it can hold units; registering an account
    /// twice changes nothing.
    pub fn storage_deposit(&mut self, account: u64)
        requires
            old(self).wf(),
        ensures
            final(self).wf(),
            final(self).unchanged_but_ledger(old(self)),
            final(self).token.total() == old(self).token.total(),
            final(self).token.balances() == (if old(self).token.balances().contains_key(account) {
                old(self).token.balances()
            } else {
                old(self).token.balances().insert(account, 0)
            }),
    {
        if !self.token.contains_account(account) {
            self.token.internal_register_account(account);
        }
    }

    /// Moves units between two distinct registered accounts.
    pub fn ft_transfer(&mut self, sender: u64, receiver: u64, amount: u128)
        requires
            old(self).wf(),
            sender != receiver,
            amount > 0,
            old(self).token.balances().contains_key(sender),
            old(self).token.balances().contains_key(receiver),
            amount <= old(self).token.balances()[sender],
            amount <= old(self).token.total(),
            old(self).token.balances()[receiver] + amount <= u128::MAX,
        ensures
            final(self).wf(),
            final(self).unchanged_but_ledger(old(self)),
            final(self).token.total() == old(self).token.total(),
            final(self).token.balances() == old(self).token.balances().insert(
                sender,
                (old(self).token.balances()[sender] - amount) as u128,
            ).insert(receiver, (old(self).token.balances()[receiver] + amount) as u128),
    {
        self.token.internal_transfer(sender, receiver, amount);
    }

    /// Rebalance entry, restricted to the owner. Validates the target
    /// weight vector before any external call, then returns phase one: the
    /// swap batch liquidating every held asset into the native currency.
    /// The caller submits the batch (or skips an empty one), fans out the
    /// full snapshot-refresh query, and hands the joined balances to
    /// `callback_retract`.
    pub fn rebalance_portfolio(&self, caller: u64, new_balance: &Vec<u128>) -> (r: Result<
        Vec<SwapAction>,
        Error,
    >)
        requires
            self.wf(),
            new_balance@.len() == N_ASSETS + 1,
        ensures
            caller != self.owner_account ==> r == Err::<Vec<SwapAction>, Error>(Error::NotOwner),
            caller == self.owner_account && spec_weight_sum(new_balance@) != WEIGHT_TOTAL ==> r
                == Err::<Vec<SwapAction>, Error>(Error::InvalidWeights),
            caller == self.owner_account && spec_weight_sum(new_balance@) == WEIGHT_TOTAL ==> {
                &&& r is Ok
                &&& r->Ok_0@ == spec_liquidate_swaps(self.ex_balances@)
            },
    {
        if caller != self.owner_account {
            return Err(Error::NotOwner);
        }
        if !weights_are_valid(new_balance) {
            return Err(Error::InvalidWeights);
        }
        let mut swaps: Vec<SwapAction> = Vec::new();
        let mut x: usize = 0;
        while x < N_ASSETS
            invariant
                0 <= x <= N_ASSETS,
                self.ex_balances@.len() == N_ASSETS + 1,
                swaps@ == spec_liquidate_swaps_upto(self.ex_balances@, x as int),
            decreases N_ASSETS - x,
        {
            let cached = self.ex_balances[x + 1];
            if cached > 0 {
                swaps.push(
                    SwapAction {
                        pool_id: pool_id_of(x + 1),
                        token_in: x + 1,
                        amount_in: Some(cached),
                        token_out: NATIVE,
                        min_amount_out: 1,
                    },
                );
            }
            x = x + 1;
        }
        Ok(swaps)
    }

    /// The native balance phase two allocates from: the refreshed value if
    /// its query succeeded, else the cached snapshot value.
    pub open spec fn spec_balance_native(&self, results: Seq<Option<u128>>) -> u128 {
        match results[0] {
            Some(b) => b,
            None => self.ex_balances@[0],
        }
    }

    /// Reallocation continuation of a rebalance. Re-validates the weight
    /// vector defensively, then returns phase two: for each tracked asset,
    /// a swap converting its target share of the refreshed native balance
    /// back into the asset, skipping targets that floor to zero. The caller
    /// submits the batch (or skips an empty one) and triggers the final
    /// snapshot refresh.
    pub fn callback_retract(
        &self,
        new_balance: &Vec<u128>,
        results: &Vec<Option<u128>>,
    ) -> (r: Result<Vec<SwapAction>, Error>)
        requires
            self.wf(),
            new_balance@.len() == N_ASSETS + 1,
            results@.len() == N_ASSETS + 1,
            spec_weight_sum(new_balance@) == WEIGHT_TOTAL ==> forall|i: int|
                1 <= i <= N_ASSETS ==> self.spec_balance_native(results@) as int
                    * new_balance@[i] as int <= u128::MAX,
        ensures
            spec_weight_sum(new_balance@) != WEIGHT_TOTAL ==> r == Err::<
                Vec<SwapAction>,
                Error,
            >(Error::InvalidWeights),
            spec_weight_sum(new_balance@) == WEIGHT_TOTAL ==> {
                &&& r is Ok
                &&& r->Ok_0@ == spec_reallocate_swaps(
                    self.spec_balance_native(results@),
                    new_balance@,
                )
            },
    {
        if !weights_are_valid(new_balance) {
            return Err(Error::InvalidWeights);
        }
        let balance_native = match results[0] {
            Some(b) => b,
            None => self.ex_balances[0],
        };
        let mut swaps: Vec<SwapAction> = Vec::new();
        let mut x: usize = 0;
        while x < N_ASSETS
            invariant
                0 <= x <= N_ASSETS,
                new_balance@.len() == N_ASSETS + 1,
                balance_native == self.spec_balance_native(results@),
                forall|i: int|
                    1 <= i <= N_ASSETS ==> balance_native as int * new_balance@[i] as int
                        <= u128::MAX,
                swaps@ == spec_reallocate_swaps_upto(balance_native, new_balance@, x as int),
            decreases N_ASSETS - x,
        {
            let value = mul_div(balance_native, new_balance[x + 1], WEIGHT_TOTAL);
            if value > 0 {
                swaps.push(
                    SwapAction {
                        pool_id: pool_id_of(x + 1),
                        token_in: NATIVE,
                        amount_in: Some(value),
                        token_out: x + 1,
                        min_amount_out: 1,
                    },
                );
            }
            x = x + 1;
        }
        Ok(swaps)
    }
}

} // verus!
