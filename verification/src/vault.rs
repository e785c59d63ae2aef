//! A companion vault: a lockable balance with deposits and withdrawals.
//!
//! The vault is a simple counter guarded by a lock toggle. Its funds live
//! with the ledger collaborator; here the balance is a plain amount, and the
//! authority an already-authenticated identity key.

use vstd::prelude::*;

use crate::errors::VaultError;

verus! {

/// A lockable pool of funds with a single authority.
#[derive(Debug, PartialEq, Eq)]
pub struct Vault {
    /// Identity allowed to withdraw and to toggle the lock.
    pub vault_authority: u64,
    /// While true, deposits and withdrawals are suspended.
    pub locked: bool,
    /// Funds currently held by the vault.
    pub balance: u64,
}

/// Moves `amount` from a user's balance into the vault.
///
/// The vault must be unlocked and the user's balance must cover the amount.
/// The user's new balance is returned; on failure nothing changes.
pub fn _deposit(vault: &mut Vault, user_balance: u64, amount: u64) -> (r: Result<u64, VaultError>)
    requires
        old(vault).balance + amount <= u64::MAX,
    ensures
        r is Err ==> *final(vault) == *old(vault),
        old(vault).locked <==> r == Err::<u64, VaultError>(VaultError::VaultLocked),
        !old(vault).locked && user_balance < amount <==> r == Err::<u64, VaultError>(
            VaultError::InsufficientBalance,
        ),
        r is Ok <==> !old(vault).locked && user_balance >= amount,
        r matches Ok(new_user_balance) ==> {
            &&& new_user_balance == user_balance - amount
            &&& final(vault).balance == old(vault).balance + amount
            &&& final(vault).locked == old(vault).locked
            &&& final(vault).vault_authority == old(vault).vault_authority
        },
{
    if vault.locked {
        return Err(VaultError::VaultLocked);
    }
    if user_balance < amount {
        return Err(VaultError::InsufficientBalance);
    }
    vault.balance = vault.balance + amount;
    Ok(user_balance - amount)
}

/// Moves `amount` from the vault to its authority.
///
/// Only the vault's authority reaches this, as the identity collaborator
/// guarantees. The vault must be unlocked and hold at least the amount; the
/// amount withdrawn is returned for the ledger to credit. On failure nothing
/// changes.
pub fn _withdraw(vault: &mut Vault, caller: u64, amount: u64) -> (r: Result<u64, VaultError>)
    requires
        caller == old(vault).vault_authority,
    ensures
        r is Err ==> *final(vault) == *old(vault),
        old(vault).locked <==> r == Err::<u64, VaultError>(VaultError::VaultLocked),
        !old(vault).locked && old(vault).balance < amount <==> r == Err::<u64, VaultError>(
            VaultError::InsufficientBalance,
        ),
        r is Ok <==> !old(vault).locked && old(vault).balance >= amount,
        r matches Ok(withdrawn) ==> {
            &&& withdrawn == amount
            &&& final(vault).balance == old(vault).balance - amount
            &&& final(vault).locked == old(vault).locked
            &&& final(vault).vault_authority == old(vault).vault_authority
        },
{
    if vault.locked {
        return Err(VaultError::VaultLocked);
    }
    if vault.balance < amount {
        return Err(VaultError::InsufficientBalance);
    }
    vault.balance = vault.balance - amount;
    Ok(amount)
}

/// Flips the vault's lock: locked becomes unlocked, unlocked becomes locked.
///
/// Only the vault's authority reaches this, as the identity collaborator
/// guarantees.
pub fn _toggle_lock(vault: &mut Vault, caller: u64) -> (r: Result<bool, VaultError>)
    requires
        caller == old(vault).vault_authority,
    ensures
        r == Ok::<bool, VaultError>(final(vault).locked),
        final(vault).locked == !old(vault).locked,
        final(vault).balance == old(vault).balance,
        final(vault).vault_authority == old(vault).vault_authority,
{
    vault.locked = !vault.locked;
    Ok(vault.locked)
}

} // verus!
