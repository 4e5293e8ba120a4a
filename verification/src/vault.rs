//! The vault ledger: a single-owner account holding a balance behind a lock
//! flag. Deposits and withdrawals are legal only while the vault is unlocked,
//! and every balance update goes through the checked arithmetic engine.
//!
//! The host authenticates the caller and actually moves external funds; this
//! module only decides legality and computes the new vault balance. The lock
//! flag is toggled by the host and is read-only here.

use vstd::prelude::*;

use crate::arith::add_checked;
use crate::arith::sub_checked;

verus! {

/// Why a vault operation was refused. Every failure leaves the vault exactly
/// as it was.
#[derive(Clone, Copy, Debug, PartialEq, Eq, Structural)]
pub enum VaultError {
    /// The vault's lock flag is set; no mutation is legal.
    VaultLocked,
    /// The paying side (the caller on deposit, the vault on withdraw) holds
    /// less than the requested amount.
    InsufficientBalance,
    /// The deposit would push the balance past the balance width.
    Overflow,
}

/// A single-owner locked account. `owner` is an opaque host-validated
/// identity; `locked == true` freezes `balance` against deposit and withdraw.
#[derive(Clone, Copy, Debug, PartialEq, Eq, Structural)]
pub struct Vault {
    pub owner: u64,
    pub balance: u64,
    pub locked: bool,
}

impl Vault {
    /// Creates an unlocked vault for `owner` holding `balance`.
    pub fn new(owner: u64, balance: u64) -> (v: Vault)
        ensures
            v == (Vault { owner, balance, locked: false }),
    {
        Vault { owner, balance, locked: false }
    }
}

/// Adds `amount` to the vault, paid by a caller currently holding
/// `caller_balance` externally. Legal only when the vault is unlocked, the
/// caller can cover the amount, and the new balance fits the balance width;
/// returns the new balance, which the host commits together with the
/// matching external transfer. Any failure leaves the vault unchanged.
pub fn deposit(vault: &mut Vault, caller_balance: u64, amount: u64) -> (r: Result<
    u64,
    VaultError,
>)
    ensures
        old(vault).locked ==> r == Err::<u64, VaultError>(VaultError::VaultLocked),
        !old(vault).locked && caller_balance < amount ==> r == Err::<u64, VaultError>(
            VaultError::InsufficientBalance,
        ),
        !old(vault).locked && caller_balance >= amount && old(vault).balance + amount > u64::MAX
            ==> r == Err::<u64, VaultError>(VaultError::Overflow),
        r is Err ==> *final(vault) == *old(vault),
        r is Ok <==> !old(vault).locked && caller_balance >= amount && old(vault).balance + amount
            <= u64::MAX,
        r is Ok ==> {
            &&& r == Ok::<u64, VaultError>((old(vault).balance + amount) as u64)
            &&& final(vault).balance == old(vault).balance + amount
            &&& final(vault).owner == old(vault).owner
            &&& final(vault).locked == old(vault).locked
        },
{
    if vault.locked {
        return Err(VaultError::VaultLocked);
    }
    if caller_balance < amount {
        return Err(VaultError::InsufficientBalance);
    }
    match add_checked(vault.balance, amount) {
        Ok(new_balance) => {
            vault.balance = new_balance;
            Ok(new_balance)
        },
        Err(_) => Err(VaultError::Overflow),
    }
}

/// Removes `amount` from the vault in favour of `authority`, a
/// host-validated identity (this core does not re-check it against the
/// owner). Legal only when the vault is unlocked and holds at least
/// `amount`; returns the new balance. Any failure leaves the vault
/// unchanged.
pub fn withdraw(vault: &mut Vault, authority: u64, amount: u64) -> (r: Result<u64, VaultError>)
    ensures
        old(vault).locked ==> r == Err::<u64, VaultError>(VaultError::VaultLocked),
        !old(vault).locked && old(vault).balance < amount ==> r == Err::<u64, VaultError>(
            VaultError::InsufficientBalance,
        ),
        r is Err ==> *final(vault) == *old(vault),
        r is Ok <==> !old(vault).locked && old(vault).balance >= amount,
        r is Ok ==> {
            &&& r == Ok::<u64, VaultError>((old(vault).balance - amount) as u64)
            &&& final(vault).balance == old(vault).balance - amount
            &&& final(vault).owner == old(vault).owner
            &&& final(vault).locked == old(vault).locked
        },
{
    if vault.locked {
        return Err(VaultError::VaultLocked);
    }
    if vault.balance < amount {
        return Err(VaultError::InsufficientBalance);
    }
    match sub_checked(vault.balance, amount) {
        Ok(new_balance) => {
            vault.balance = new_balance;
            Ok(new_balance)
        },
        Err(_) => Err(VaultError::InsufficientBalance),
    }
}

} // verus!
