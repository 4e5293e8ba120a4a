use funds_ledger::vault::deposit;
use funds_ledger::vault::withdraw;
use funds_ledger::vault::Vault;
use funds_ledger::vault::VaultError;

#[test]
fn new_vault_is_unlocked() {
    let v = Vault::new(7, 250);
    assert_eq!(v.owner, 7);
    assert_eq!(v.balance, 250);
    assert!(!v.locked);
}

#[test]
fn withdraw_from_unlocked_vault() {
    let mut v = Vault { owner: 1, balance: 100, locked: false };
    assert_eq!(withdraw(&mut v, 9, 40), Ok(60));
    assert_eq!(v.balance, 60);
    assert!(!v.locked);
}

#[test]
fn deposit_on_locked_vault_fails_and_leaves_balance() {
    let mut v = Vault { owner: 1, balance: 50, locked: true };
    assert_eq!(deposit(&mut v, 1000, 10), Err(VaultError::VaultLocked));
    assert_eq!(v.balance, 50);
    assert!(v.locked);
}

#[test]
fn withdraw_on_locked_vault_fails_and_leaves_balance() {
    let mut v = Vault { owner: 1, balance: 50, locked: true };
    assert_eq!(withdraw(&mut v, 1, 10), Err(VaultError::VaultLocked));
    assert_eq!(v.balance, 50);
}

#[test]
fn deposit_into_unlocked_vault() {
    let mut v = Vault { owner: 3, balance: 90, locked: false };
    assert_eq!(deposit(&mut v, 1000, 10), Ok(100));
    assert_eq!(v.balance, 100);
}

#[test]
fn deposit_needs_caller_funds() {
    let mut v = Vault { owner: 3, balance: 90, locked: false };
    assert_eq!(deposit(&mut v, 9, 10), Err(VaultError::InsufficientBalance));
    assert_eq!(v.balance, 90);
}

#[test]
fn deposit_whole_caller_balance_is_legal() {
    let mut v = Vault { owner: 3, balance: 0, locked: false };
    assert_eq!(deposit(&mut v, 10, 10), Ok(10));
    assert_eq!(v.balance, 10);
}

#[test]
fn deposit_overflow_is_reported_not_wrapped() {
    let mut v = Vault { owner: 3, balance: u64::MAX, locked: false };
    assert_eq!(deposit(&mut v, 5, 1), Err(VaultError::Overflow));
    assert_eq!(v.balance, u64::MAX);
}

#[test]
fn withdraw_needs_vault_funds() {
    let mut v = Vault { owner: 3, balance: 39, locked: false };
    assert_eq!(withdraw(&mut v, 3, 40), Err(VaultError::InsufficientBalance));
    assert_eq!(v.balance, 39);
}

#[test]
fn withdraw_whole_balance_is_legal() {
    let mut v = Vault { owner: 3, balance: 40, locked: false };
    assert_eq!(withdraw(&mut v, 3, 40), Ok(0));
    assert_eq!(v.balance, 0);
}
