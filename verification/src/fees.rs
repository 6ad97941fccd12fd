//! Fee engine: splits a gross token amount into the recipient's share and the
//! two equal fee shares (administration and fund), rounding each down.

use vstd::prelude::*;
use vstd::arithmetic::div_mod::{lemma_fundamental_div_mod, lemma_mod_division_less_than_divisor};
use crate::FEE_PERC;

verus! {

/// The share of a gross amount kept by the recipient: `(100 - FEE_PERC)%`,
/// rounded down.
pub open spec fn spec_recipient_share(gross: u128) -> int {
    (100 - FEE_PERC) * gross / 100
}

/// One fee recipient's share of a gross amount: half of the `FEE_PERC%` fee,
/// rounded down. The administration and fund accounts each receive this.
pub open spec fn spec_fee_share(gross: u128) -> int {
    FEE_PERC * gross / 200
}

/// The three floored shares never exceed the gross amount they split.
pub proof fn lemma_shares_bounded(gross: u128)
    ensures
        0 <= spec_recipient_share(gross),
        0 <= spec_fee_share(gross),
        spec_recipient_share(gross) + spec_fee_share(gross) + spec_fee_share(gross)
            <= gross,
{
    let g = gross as int;
    let rec = spec_recipient_share(gross);
    let fee = spec_fee_share(gross);
    assert(rec == 98 * g / 100);
    assert(fee == 2 * g / 200);
    lemma_fundamental_div_mod(98 * g, 100);
    lemma_mod_division_less_than_divisor(98 * g, 100);
    lemma_fundamental_div_mod(2 * g, 200);
    lemma_mod_division_less_than_divisor(2 * g, 200);
    assert(100 * rec <= 98 * g);
    assert(200 * fee <= 2 * g);
    assert(100 * (rec + fee + fee) <= 100 * g);
}

pub fn recipient_share(gross: u128) -> (r: u128)
    requires
        (100 - FEE_PERC) * gross <= u128::MAX,
    ensures
        r == spec_recipient_share(gross),
{
    ((100 - FEE_PERC) * gross) / 100
}

pub fn fee_share(gross: u128) -> (r: u128)
    requires
        FEE_PERC * gross <= u128::MAX,
    ensures
        r == spec_fee_share(gross),
{
    (FEE_PERC * gross) / 200
}

} // verus!
