use erc20::ledger::{Error, GenesisConfig, Pallet};

fn new_ledger() -> Pallet {
    GenesisConfig { minters: vec![1] }.build()
}

fn snapshot(p: &Pallet) -> (Vec<u64>, Vec<u64>, u64, usize) {
    let accounts = [1u64, 2, 3];
    let balances = accounts.iter().map(|a| p.balance_of(*a)).collect();
    let mut allowances = Vec::new();
    for o in accounts {
        for s in accounts {
            allowances.push(p.allowances(o, s));
        }
    }
    (balances, allowances, p.total_supply(), p.events().len())
}

/// Should mint tokens correctly
#[test]
fn mint_ok() {
    let mut p = new_ledger();
    assert_eq!(p.mint(1, 42), Ok(()));
    assert_eq!(p.balance_of(1), 42);
}

/// Should revert if mint is unauthorized
#[test]
fn mint_bad_authority() {
    let mut p = new_ledger();
    let before = snapshot(&p);
    assert_eq!(p.mint(2, 42), Err(Error::AccessControl));
    assert_eq!(snapshot(&p), before);
    assert_eq!(p.balance_of(2), 0);
}

/// Should transfer tokens correctly
#[test]
fn transfer_ok() {
    let mut p = new_ledger();
    assert_eq!(p.mint(1, 42), Ok(()));
    assert_eq!(p.transfer(1, 2, 42), Ok(()));
    assert_eq!(p.balance_of(1), 0);
    assert_eq!(p.balance_of(2), 42);
}

/// Should revert if not enough balance
#[test]
fn transfer_low_balance() {
    let mut p = new_ledger();
    assert_eq!(p.mint(1, 42), Ok(()));
    let before = snapshot(&p);
    assert_eq!(p.transfer(1, 2, 43), Err(Error::ERC20InsufficientBalance));
    assert_eq!(snapshot(&p), before);
    assert_eq!(p.balance_of(1), 42);
    assert_eq!(p.balance_of(2), 0);
}

/// Should approve correctly
#[test]
fn approve_ok() {
    let mut p = new_ledger();
    assert_eq!(p.mint(1, 42), Ok(()));
    assert_eq!(p.approve(1, 2, 42), Ok(()));
    assert_eq!(p.allowances(1, 2), 42);
}

/// Should transferFrom correctly
#[test]
fn transfer_from_ok() {
    let mut p = new_ledger();
    assert_eq!(p.mint(1, 42), Ok(()));
    assert_eq!(p.approve(1, 2, 42), Ok(()));
    assert_eq!(p.transfer_from(2, 1, 3, 42), Ok(()));
    assert_eq!(p.balance_of(1), 0);
    assert_eq!(p.balance_of(2), 0);
    assert_eq!(p.balance_of(3), 42);
}

/// Should revert if not enough allowance
#[test]
fn transfer_from_low_allowance() {
    let mut p = new_ledger();
    assert_eq!(p.mint(1, 43), Ok(()));
    assert_eq!(p.approve(1, 2, 42), Ok(()));
    let before = snapshot(&p);
    assert_eq!(p.transfer_from(2, 1, 3, 43), Err(Error::ERC20InsufficientAllowance));
    assert_eq!(snapshot(&p), before);
}

/// Should revert if not enough balance
#[test]
fn transfer_from_low_balance() {
    let mut p = new_ledger();
    assert_eq!(p.mint(1, 42), Ok(()));
    assert_eq!(p.approve(1, 2, 10000), Ok(()));
    let before = snapshot(&p);
    assert_eq!(p.transfer_from(2, 1, 3, 10000), Err(Error::ERC20InsufficientBalance));
    assert_eq!(snapshot(&p), before);
}

#[test]
fn burn_ok() {
    let mut p = new_ledger();
    assert_eq!(p.mint(1, 42), Ok(()));
    assert_eq!(p.burn(1, 42), Ok(()));
    assert_eq!(p.balance_of(1), 0);
}

#[test]
fn burn_low_balance() {
    let mut p = new_ledger();
    assert_eq!(p.mint(1, 42), Ok(()));
    let before = snapshot(&p);
    assert_eq!(p.burn(1, 43), Err(Error::ERC20InsufficientBalance));
    assert_eq!(snapshot(&p), before);
    assert_eq!(p.balance_of(1), 42);
}
