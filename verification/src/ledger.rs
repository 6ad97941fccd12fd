//! The token ledger: account balances and the total supply of the fund's
//! fungible unit. Accounts are plain numeric identities; a balance exists
//! only for a registered account.

use vstd::prelude::*;
use std::collections::HashMap;

verus! {

broadcast use vstd::std_specs::hash::group_hash_axioms;

/// Mint/withdraw bookkeeping for the fund's fungible unit.
pub struct Ledger {
    accounts: HashMap<u64, u128>,
    total_supply: u128,
}

impl Ledger {
    /// The balance of each registered account.
    pub closed spec fn balances(&self) -> Map<u64, u128> {
        self.accounts@
    }

    /// The sum of all units ever minted and not yet burned.
    pub closed spec fn total(&self) -> u128 {
        self.total_supply
    }

    /// The balance an observer sees: zero for an unregistered account.
    pub open spec fn spec_balance_of(&self, account: u64) -> u128 {
        if self.balances().contains_key(account) {
            self.balances()[account]
        } else {
            0
        }
    }

    pub fn new() -> (l: Ledger)
        ensures
            l.balances() == Map::<u64, u128>::empty(),
            l.total() == 0,
    {
        Ledger { accounts: HashMap::new(), total_supply: 0 }
    }

    pub fn contains_account(&self, account: u64) -> (r: bool)
        ensures
            r == self.balances().contains_key(account),
    {
        self.accounts.contains_key(&account)
    }

    /// Opens an account with a zero balance.
    pub fn internal_register_account(&mut self, account: u64)
        requires
            !old(self).balances().contains_key(account),
        ensures
            final(self).balances() == old(self).balances().insert(account, 0),
            final(self).total() == old(self).total(),
    {
        self.accounts.insert(account, 0);
    }

    /// Mints `amount` units into a registered account: its balance and the
    /// total supply each grow by `amount`.
    pub fn internal_deposit(&mut self, account: u64, amount: u128)
        requires
            old(self).balances().contains_key(account),
            old(self).balances()[account] + amount <= u128::MAX,
            old(self).total() + amount <= u128::MAX,
        ensures
            final(self).balances() == old(self).balances().insert(
                account,
                (old(self).balances()[account] + amount) as u128,
            ),
            final(self).total() == old(self).total() + amount,
    {
        let balance = *self.accounts.get(&account).unwrap();
        self.accounts.insert(account, balance + amount);
        self.total_supply = self.total_supply + amount;
    }

    /// Burns `amount` units from a registered account: its balance and the
    /// total supply each shrink by `amount`.
    pub fn internal_withdraw(&mut self, account: u64, amount: u128)
        requires
            old(self).balances().contains_key(account),
            amount <= old(self).balances()[account],
            amount <= old(self).total(),
        ensures
            final(self).balances() == old(self).balances().insert(
                account,
                (old(self).balances()[account] - amount) as u128,
            ),
            final(self).total() == old(self).total() - amount,
    {
        let balance = *self.accounts.get(&account).unwrap();
        self.accounts.insert(account, balance - amount);
        self.total_supply = self.total_supply - amount;
    }

    /// Moves `amount` units between two distinct registered accounts; the
    /// total supply does not change.
    pub fn internal_transfer(&mut self, sender: u64, receiver: u64, amount: u128)
        requires
            sender != receiver,
            amount > 0,
            old(self).balances().contains_key(sender),
            old(self).balances().contains_key(receiver),
            amount <= old(self).balances()[sender],
            amount <= old(self).total(),
            old(self).balances()[receiver] + amount <= u128::MAX,
        ensures
            final(self).balances() == old(self).balances().insert(
                sender,
                (old(self).balances()[sender] - amount) as u128,
            ).insert(receiver, (old(self).balances()[receiver] + amount) as u128),
            final(self).total() == old(self).total(),
    {
        self.internal_withdraw(sender, amount);
        self.internal_deposit(receiver, amount);
    }

    pub fn ft_balance_of(&self, account: u64) -> (r: u128)
        ensures
            r == self.spec_balance_of(account),
    {
        match self.accounts.get(&account) {
            Some(balance) => *balance,
            None => 0,
        }
    }

    pub fn ft_total_supply(&self) -> (r: u128)
        ensures
            r == self.total(),
    {
        self.total_supply
    }
}

} // verus!
