//! Ledger behaviour through the contract: creation, registration, transfer.

use serpius::contract::Contract;

const TOTAL_SUPPLY: u128 = 1_000_000_000_000_000;

const OWNER: u64 = 1;
const ADMIN: u64 = 7;
const FUND: u64 = 8;

#[test]
fn test_new() {
    let contract = Contract::new(OWNER, TOTAL_SUPPLY, ADMIN, FUND);
    assert_eq!(contract.ft_total_supply(), TOTAL_SUPPLY);
    assert_eq!(contract.ft_balance_of(OWNER), TOTAL_SUPPLY);
}

#[test]
fn test_transfer() {
    let sender: u64 = 2;
    let receiver: u64 = 1;
    let mut contract = Contract::new(sender, TOTAL_SUPPLY, ADMIN, FUND);
    // Paying for account registration, aka storage deposit
    contract.storage_deposit(receiver);

    let transfer_amount = TOTAL_SUPPLY / 3;
    contract.ft_transfer(sender, receiver, transfer_amount);

    assert_eq!(contract.ft_balance_of(sender), TOTAL_SUPPLY - transfer_amount);
    assert_eq!(contract.ft_balance_of(receiver), transfer_amount);
}

#[test]
fn new_registers_fee_accounts_empty() {
    let contract = Contract::new(OWNER, 42, ADMIN, FUND);
    assert_eq!(contract.ft_balance_of(ADMIN), 0);
    assert_eq!(contract.ft_balance_of(FUND), 0);
    // An account never registered reads as zero.
    assert_eq!(contract.ft_balance_of(99), 0);
}

#[test]
fn storage_deposit_is_idempotent() {
    let mut contract = Contract::new(OWNER, 10, ADMIN, FUND);
    contract.storage_deposit(5);
    contract.storage_deposit(5);
    assert_eq!(contract.ft_balance_of(5), 0);
    assert_eq!(contract.ft_total_supply(), 10);
}
