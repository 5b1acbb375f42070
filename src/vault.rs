use vstd::prelude::*;
use crate::pubkey::Wallet;
use crate::pubkey::Pubkey;

verus! {

/// A single-owner store of native-currency units that can be locked.
#[derive(Clone, Copy, Debug)]
pub struct Vault {
    pub vault_authority: Pubkey,
    pub locked: bool,
    pub lamports: u64,
}

/// Why a vault operation was refused.
#[derive(Clone, Copy, Debug, PartialEq, Eq, Structural)]
pub enum VaultError {
    VaultLocked,
    InsufficientBalance,
    /// The signer is not the vault's authority.
    Unauthorized,
}

/// Why a deposit is refused, if it is.
pub open spec fn deposit_error(vault: Vault, user: Wallet, amount: u64) -> Option<VaultError> {
    if vault.locked {
        Some(VaultError::VaultLocked)
    } else if user.lamports < amount {
        Some(VaultError::InsufficientBalance)
    } else {
        None
    }
}

/// Moves `amount` from `user` into an unlocked vault.
pub fn _deposit(vault: &mut Vault, user: &mut Wallet, amount: u64) -> (r: Result<(), VaultError>)
    requires
        old(vault).lamports + old(user).lamports <= u64::MAX,
    ensures
        match r {
            Ok(()) => {
                &&& deposit_error(*old(vault), *old(user), amount) is None
                &&& final(vault).vault_authority == old(vault).vault_authority
                &&& final(vault).locked == old(vault).locked
                &&& final(vault).lamports == old(vault).lamports + amount
                &&& final(user).key == old(user).key
                &&& final(user).lamports == old(user).lamports - amount
            },
            Err(e) => {
                &&& deposit_error(*old(vault), *old(user), amount) == Some(e)
                &&& *final(vault) == *old(vault)
                &&& *final(user) == *old(user)
            },
        },
{
    if vault.locked {
        return Err(VaultError::VaultLocked);
    }
    if user.lamports < amount {
        return Err(VaultError::InsufficientBalance);
    }
    user.lamports = user.lamports - amount;
    vault.lamports = vault.lamports + amount;
    Ok(())
}

/// Why a withdrawal from the vault is refused, if it is.
pub open spec fn vault_withdraw_error(vault: Vault, authority: Wallet, amount: u64) -> Option<
    VaultError,
> {
    if vault.vault_authority@ != authority.key@ {
        Some(VaultError::Unauthorized)
    } else if vault.locked {
        Some(VaultError::VaultLocked)
    } else if vault.lamports < amount {
        Some(VaultError::InsufficientBalance)
    } else {
        None
    }
}

/// Moves `amount` out of an unlocked vault to its authority.
pub fn _withdraw(vault: &mut Vault, vault_authority: &mut Wallet, amount: u64) -> (r: Result<
    (),
    VaultError,
>)
    requires
        old(vault).lamports + old(vault_authority).lamports <= u64::MAX,
    ensures
        match r {
            Ok(()) => {
                &&& vault_withdraw_error(*old(vault), *old(vault_authority), amount) is None
                &&& final(vault).vault_authority == old(vault).vault_authority
                &&& final(vault).locked == old(vault).locked
                &&& final(vault).lamports == old(vault).lamports - amount
                &&& final(vault_authority).key == old(vault_authority).key
                &&& final(vault_authority).lamports == old(vault_authority).lamports + amount
            },
            Err(e) => {
                &&& vault_withdraw_error(*old(vault), *old(vault_authority), amount) == Some(e)
                &&& *final(vault) == *old(vault)
                &&& *final(vault_authority) == *old(vault_authority)
            },
        },
{
    if !vault.vault_authority.same_key(&vault_authority.key) {
        return Err(VaultError::Unauthorized);
    }
    if vault.locked {
        return Err(VaultError::VaultLocked);
    }
    if vault.lamports < amount {
        return Err(VaultError::InsufficientBalance);
    }
    vault.lamports = vault.lamports - amount;
    vault_authority.lamports = vault_authority.lamports + amount;
    Ok(())
}

} // verus!
