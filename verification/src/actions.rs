//! The instructions a workflow step hands back to its caller: quote requests
//! and swap instructions for the exchange, and the errors that reject an
//! entry point before any external call is issued.
//!
//! Assets are addressed by their fixed basket position: `NATIVE` (0) is the
//! native currency, positions `1..=N_ASSETS` are the tracked assets, each
//! traded against the native currency in its own exchange pool.

use vstd::prelude::*;
use crate::N_ASSETS;

verus! {

/// Basket position of the native currency.
pub const NATIVE: usize = 0;

/// The exchange pool in which a tracked asset trades against the native
/// currency.
pub open spec fn spec_pool_id(asset: int) -> u64 {
    if asset == 1 {
        15
    } else if asset == 2 {
        24
    } else {
        30
    }
}

pub fn pool_id_of(asset: usize) -> (pool: u64)
    requires
        1 <= asset <= N_ASSETS,
    ensures
        pool == spec_pool_id(asset as int),
{
    if asset == 1 {
        15
    } else if asset == 2 {
        24
    } else {
        30
    }
}

/// One swap instruction for the exchange; a batch of these executes
/// all-or-nothing.
#[derive(Clone, Copy, Debug, PartialEq, Eq)]
pub struct SwapAction {
    pub pool_id: u64,
    pub token_in: usize,
    pub amount_in: Option<u128>,
    pub token_out: usize,
    pub min_amount_out: u128,
}

/// One price-estimate request for the exchange: the native value of
/// `amount_in` of `token_in`.
#[derive(Clone, Copy, Debug, PartialEq, Eq)]
pub struct QuoteRequest {
    pub pool_id: u64,
    pub token_in: usize,
    pub amount_in: u128,
    pub token_out: usize,
}

/// Rejection of an entry point before any external call is issued.
#[derive(Clone, Copy, Debug, PartialEq, Eq)]
pub enum Error {
    /// `buy_token` was called without a native deposit.
    ZeroDeposit,
    /// `sell_token` was called for zero units.
    ZeroTokens,
    /// The seller's balance does not cover the requested amount.
    InsufficientBalance,
    /// A rebalance was requested by someone other than the owner.
    NotOwner,
    /// A target weight vector does not sum to exactly `WEIGHT_TOTAL`.
    InvalidWeights,
}

} // verus!
