//! Index-fund token: a fungible unit whose value tracks a basket of exchange
//! assets. Holders buy units with a native-currency deposit priced off the
//! basket's aggregate value; sellers burn units for a proportional payout.
//!
//! The crate verifies the pricing and fee arithmetic, the token ledger, and
//! the decision step of each asynchronous workflow (buy, sell, rebalance,
//! snapshot refresh). Each workflow step is a function from the fund state and
//! the joined results of the previous call batch to the ledger mutation and
//! the next batch of exchange instructions; the surrounding promise plumbing
//! performs the calls and hands the results back as plain values.

use vstd::prelude::*;

pub mod actions;
pub mod arith;
pub mod contract;
pub mod fees;
pub mod laws;
pub mod ledger;
pub mod pricing;
pub mod weights;

verus! {

/// Fixed-point scale factor: prices carry eight decimal places.
pub const DEC_PREC: u128 = 100_000_000;

/// Fee rate in parts per hundred, split half-and-half between the
/// administration and fund accounts on every buy and sale.
pub const FEE_PERC: u128 = 2;

/// Number of tracked exchange assets (the basket holds these plus the native
/// currency).
pub const N_ASSETS: usize = 3;

/// A target weight vector must sum to exactly this (parts per thousand).
pub const WEIGHT_TOTAL: u128 = 1000;

} // verus!
