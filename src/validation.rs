//! Checks that tie a mutation request to its pool and custody accounts. They
//! run before any arithmetic and have no effect.
use vstd::prelude::*;
use crate::address::{derive_pool_address, pool_address};
use crate::error::AmmError;
use crate::key::Key;
use crate::state::Pool;

verus! {

/// The first check that the supplied accounts fail, in this order: the pool
/// address, the vaults, the user accounts being distinct from the vaults, the
/// user's signature.
pub open spec fn accounts_error(
    pool: Pool,
    pool_addr: Seq<u8>,
    vault_x: Seq<u8>,
    vault_y: Seq<u8>,
    user_x: Seq<u8>,
    user_y: Seq<u8>,
    user_signed: bool,
    program_id: Seq<u8>,
) -> Option<AmmError> {
    if pool_address(pool.token_x_mint@, pool.token_y_mint@, pool.bump, program_id) != Some(
        pool_addr,
    ) {
        Some(AmmError::AddressMismatch)
    } else if vault_x != pool.token_x_vault@ || vault_y != pool.token_y_vault@ {
        Some(AmmError::VaultMismatch)
    } else if user_x == vault_x || user_x == vault_y || user_y == vault_x || user_y == vault_y {
        Some(AmmError::AccountConflict)
    } else if !user_signed {
        Some(AmmError::MissingAuthorization)
    } else {
        None
    }
}

/// Validates the accounts of a trade or a deposit against the pool record.
pub fn validate_accounts(
    pool: &Pool,
    pool_addr: &Key,
    vault_x: &Key,
    vault_y: &Key,
    user_x: &Key,
    user_y: &Key,
    user_signed: bool,
    program_id: &Key,
) -> (r: Result<(), AmmError>)
    ensures
        match accounts_error(
            *pool,
            pool_addr@,
            vault_x@,
            vault_y@,
            user_x@,
            user_y@,
            user_signed,
            program_id@,
        ) {
            Some(e) => r == Err::<(), AmmError>(e),
            None => r is Ok,
        },
{
    match derive_pool_address(&pool.token_x_mint, &pool.token_y_mint, pool.bump, program_id) {
        Some(a) => {
            if !a.same_as(pool_addr) {
                return Err(AmmError::AddressMismatch);
            }
        },
        None => {
            return Err(AmmError::AddressMismatch);
        },
    }
    if !vault_x.same_as(&pool.token_x_vault) || !vault_y.same_as(&pool.token_y_vault) {
        return Err(AmmError::VaultMismatch);
    }
    if user_x.same_as(vault_x) || user_x.same_as(vault_y) || user_y.same_as(vault_x)
        || user_y.same_as(vault_y) {
        return Err(AmmError::AccountConflict);
    }
    if !user_signed {
        return Err(AmmError::MissingAuthorization);
    }
    Ok(())
}

} // verus!
