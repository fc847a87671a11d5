use erc20::arith::{safe_add, safe_sub, MAX_AMOUNT};
use erc20::ledger::{Call, Error, Event, GenesisConfig, Pallet};

fn new_ledger() -> Pallet {
    GenesisConfig { minters: vec![1] }.build()
}

fn sum_of(p: &Pallet, accounts: &[u64]) -> u64 {
    accounts.iter().map(|a| p.balance_of(*a)).sum()
}

#[test]
fn safe_arithmetic_at_the_boundary() {
    assert_eq!(safe_add(MAX_AMOUNT - 1, 1), Some(MAX_AMOUNT));
    assert_eq!(safe_add(MAX_AMOUNT, 1), None);
    assert_eq!(safe_add(2, 3), Some(5));
    assert_eq!(safe_sub(5, 5), Some(0));
    assert_eq!(safe_sub(5, 6), None);
    assert_eq!(safe_sub(7, 3), Some(4));
}

#[test]
fn fresh_ledger_reads_zero() {
    let p = new_ledger();
    assert_eq!(p.balance_of(9), 0);
    assert_eq!(p.allowances(9, 8), 0);
    assert_eq!(p.total_supply(), 0);
    assert!(p.is_minter(1));
    assert!(!p.is_minter(2));
    assert!(p.events().is_empty());
}

#[test]
fn transfers_conserve_the_sum() {
    let mut p = new_ledger();
    assert_eq!(p.mint(1, 100), Ok(()));
    assert_eq!(p.transfer(1, 2, 30), Ok(()));
    assert_eq!(p.approve(2, 3, 20), Ok(()));
    assert_eq!(p.transfer_from(3, 2, 4, 15), Ok(()));
    assert_eq!(p.transfer(4, 1, 5), Ok(()));
    assert_eq!(sum_of(&p, &[1, 2, 3, 4]), 100);
    assert_eq!(p.total_supply(), 100);
    assert_eq!(p.balance_of(1), 75);
    assert_eq!(p.balance_of(2), 15);
    assert_eq!(p.balance_of(4), 10);
}

#[test]
fn self_transfer_keeps_balance() {
    let mut p = new_ledger();
    assert_eq!(p.mint(1, 42), Ok(()));
    assert_eq!(p.transfer(1, 1, 42), Ok(()));
    assert_eq!(p.balance_of(1), 42);
    assert_eq!(p.events().last(), Some(&Event::Transfer { from: 1, to: 1, value: 42 }));
}

#[test]
fn self_transfer_of_the_largest_amount() {
    let mut p = new_ledger();
    assert_eq!(p.mint(1, MAX_AMOUNT), Ok(()));
    assert_eq!(p.transfer(1, 1, MAX_AMOUNT), Ok(()));
    assert_eq!(p.balance_of(1), MAX_AMOUNT);
    assert_eq!(p.transfer(1, 1, 1), Ok(()));
}

#[test]
fn self_transfer_beyond_balance_fails() {
    let mut p = new_ledger();
    assert_eq!(p.mint(1, 5), Ok(()));
    assert_eq!(p.transfer(1, 1, 6), Err(Error::ERC20InsufficientBalance));
    assert_eq!(p.balance_of(1), 5);
    assert!(p.events().is_empty());
}

#[test]
fn mint_by_non_minter_of_zero_is_refused() {
    let mut p = new_ledger();
    assert_eq!(p.mint(2, 0), Err(Error::AccessControl));
    assert_eq!(p.total_supply(), 0);
    assert_eq!(p.balance_of(2), 0);
}

#[test]
fn mint_overflow_changes_nothing() {
    let mut p = new_ledger();
    assert_eq!(p.mint(1, MAX_AMOUNT - 1), Ok(()));
    assert_eq!(p.mint(1, 2), Err(Error::StorageOverflow));
    assert_eq!(p.balance_of(1), MAX_AMOUNT - 1);
    assert_eq!(p.total_supply(), MAX_AMOUNT - 1);
    assert_eq!(p.mint(1, 1), Ok(()));
    assert_eq!(p.total_supply(), MAX_AMOUNT);
}

#[test]
fn supply_is_a_running_total() {
    let mut p = new_ledger();
    assert_eq!(p.mint(1, 10), Ok(()));
    assert_eq!(p.mint(1, 5), Ok(()));
    assert_eq!(p.total_supply(), 15);
    assert_eq!(p.burn(1, 4), Ok(()));
    assert_eq!(p.total_supply(), 11);
    assert_eq!(p.balance_of(1), 11);
}

#[test]
fn burn_scenario() {
    let mut p = new_ledger();
    assert_eq!(p.mint(1, 42), Ok(()));
    assert_eq!(p.burn(1, 42), Ok(()));
    assert_eq!(p.balance_of(1), 0);
    assert_eq!(p.burn(1, 1), Err(Error::ERC20InsufficientBalance));
    assert_eq!(p.total_supply(), 0);
}

#[test]
fn unlimited_allowance_is_not_spent() {
    let mut p = new_ledger();
    assert_eq!(p.mint(1, 50), Ok(()));
    assert_eq!(p.approve(1, 2, MAX_AMOUNT), Ok(()));
    assert_eq!(p.transfer_from(2, 1, 3, 20), Ok(()));
    assert_eq!(p.allowances(1, 2), MAX_AMOUNT);
    assert_eq!(p.events().last(), Some(&Event::Transfer { from: 1, to: 3, value: 20 }));
    assert_eq!(p.events().len(), 2);
}

#[test]
fn allowance_decreases_by_amount_spent() {
    let mut p = new_ledger();
    assert_eq!(p.mint(1, 50), Ok(()));
    assert_eq!(p.approve(1, 2, 30), Ok(()));
    assert_eq!(p.transfer_from(2, 1, 3, 12), Ok(()));
    assert_eq!(p.allowances(1, 2), 18);
    let log = p.events();
    assert_eq!(log.len(), 3);
    assert_eq!(log[0], Event::Approval { owner: 1, spender: 2, value: 30 });
    assert_eq!(log[1], Event::Approval { owner: 1, spender: 2, value: 18 });
    assert_eq!(log[2], Event::Transfer { from: 1, to: 3, value: 12 });
}

#[test]
fn approve_overwrites_and_keeps_other_pairs() {
    let mut p = new_ledger();
    assert_eq!(p.approve(1, 2, 30), Ok(()));
    assert_eq!(p.approve(1, 3, 7), Ok(()));
    assert_eq!(p.approve(1, 2, 5), Ok(()));
    assert_eq!(p.allowances(1, 2), 5);
    assert_eq!(p.allowances(1, 3), 7);
    assert_eq!(p.allowances(2, 1), 0);
}

#[test]
fn failed_transfer_from_keeps_allowance_and_events() {
    let mut p = new_ledger();
    assert_eq!(p.mint(1, 42), Ok(()));
    assert_eq!(p.approve(1, 2, 10000), Ok(()));
    assert_eq!(p.transfer_from(2, 1, 3, 10000), Err(Error::ERC20InsufficientBalance));
    assert_eq!(p.allowances(1, 2), 10000);
    assert_eq!(p.events().len(), 1);
    assert_eq!(p.balance_of(3), 0);
}

#[test]
fn allowance_is_checked_before_balance() {
    let mut p = new_ledger();
    assert_eq!(p.mint(1, 5), Ok(()));
    assert_eq!(p.approve(1, 2, 3), Ok(()));
    assert_eq!(p.transfer_from(2, 1, 3, 10), Err(Error::ERC20InsufficientAllowance));
    assert_eq!(p.allowances(1, 2), 3);
}

#[test]
fn dispatch_runs_each_call() {
    let mut p = new_ledger();
    assert_eq!(p.dispatch(2, Call::Mint { value: 1 }), Err(Error::AccessControl));
    assert_eq!(p.dispatch(1, Call::Mint { value: 42 }), Ok(()));
    assert_eq!(p.dispatch(1, Call::Transfer { to: 2, value: 40 }), Ok(()));
    assert_eq!(p.dispatch(2, Call::Approve { spender: 3, value: 10 }), Ok(()));
    assert_eq!(p.dispatch(3, Call::TransferFrom { from: 2, to: 1, value: 11 }), Err(Error::ERC20InsufficientAllowance));
    assert_eq!(p.dispatch(3, Call::TransferFrom { from: 2, to: 1, value: 10 }), Ok(()));
    assert_eq!(p.dispatch(1, Call::Burn { value: 13 }), Err(Error::ERC20InsufficientBalance));
    assert_eq!(p.dispatch(1, Call::Burn { value: 12 }), Ok(()));
    assert_eq!(p.balance_of(1), 0);
    assert_eq!(p.balance_of(2), 30);
    assert_eq!(p.allowances(2, 3), 0);
    assert_eq!(p.total_supply(), 30);
}
