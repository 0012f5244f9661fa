//! The accounts an instruction names, as plain identifiers.
use vstd::prelude::*;
use crate::key::Key;

verus! {

/// Accounts of a pool creation.
#[derive(Clone, Copy, Debug)]
pub struct InitializePoolAccount {
    /// The claimed address of the new pool.
    pub pool: Key,
    pub token_x_mint: Key,
    pub token_y_mint: Key,
    /// The custody account to create for asset X.
    pub token_x_vault: Key,
    /// The custody account to create for asset Y.
    pub token_y_vault: Key,
    pub authority: Key,
    /// Whether `authority` signed the instruction.
    pub authority_signed: bool,
}

/// Accounts of a deposit.
#[derive(Clone, Copy, Debug)]
pub struct AddLiquidityAccount {
    pub pool: Key,
    pub token_x_vault: Key,
    pub token_y_vault: Key,
    pub user_token_x: Key,
    pub user_token_y: Key,
    pub user: Key,
    /// Whether `user` signed the instruction.
    pub user_signed: bool,
}

/// Accounts of a trade.
#[derive(Clone, Copy, Debug)]
pub struct SwapAccount {
    pub pool: Key,
    pub token_x_vault: Key,
    pub token_y_vault: Key,
    pub user_token_x: Key,
    pub user_token_y: Key,
    pub user: Key,
    /// Whether `user` signed the instruction.
    pub user_signed: bool,
}

} // verus!
