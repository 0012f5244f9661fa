//! The program's instruction surface.
use vstd::prelude::*;
use crate::address::pool_address;
use crate::contexts::{AddLiquidityAccount, InitializePoolAccount, SwapAccount};
use crate::error::AmmError;
use crate::instructions::{self, add_liquidity_result, initialize_result, swap_result};
use crate::key::Key;
use crate::ledger::Ledger;
use crate::state::{Pool, in_sync, pairs_unique};

verus! {

/// Creates a pool; see `instructions::initialize_pool`.
pub fn initialize(
    pools: &mut Vec<Pool>,
    ledger: &mut Ledger,
    ctx: &InitializePoolAccount,
    program_id: &Key,
    fee_bps: u16,
) -> (r: Result<(), AmmError>)
    requires
        pairs_unique(old(pools)@),
        old(ledger).wf(),
    ensures
        pairs_unique(final(pools)@),
        final(ledger).wf(),
        match initialize_result(old(pools)@, old(ledger)@, *ctx, program_id@, fee_bps) {
            Ok((p, s)) => r is Ok && final(pools)@ == old(pools)@.push(p) && final(ledger)@ == s,
            Err(e) => r == Err::<(), AmmError>(e) && final(pools)@ == old(pools)@ && final(ledger)@
                == old(ledger)@,
        },
        r is Ok ==> final(pools)@.last().wf() && in_sync(final(pools)@.last(), final(ledger)@)
            && pool_address(
            ctx.token_x_mint@,
            ctx.token_y_mint@,
            final(pools)@.last().bump,
            program_id@,
        ) == Some(ctx.pool@),
{
    instructions::initialize_pool(pools, ledger, ctx, program_id, fee_bps)
}

/// Trades asset X for asset Y; see `instructions::swap`.
pub fn swap(
    pool: &mut Pool,
    ledger: &mut Ledger,
    ctx: &SwapAccount,
    program_id: &Key,
    amount_in: u64,
) -> (r: Result<u64, AmmError>)
    requires
        old(ledger).wf(),
    ensures
        final(ledger).wf(),
        match swap_result(*old(pool), old(ledger)@, *ctx, program_id@, amount_in) {
            Ok((out, s)) => r == Ok::<u64, AmmError>(out) && final(ledger)@ == s && *final(pool) == (
            Pool {
                token_x_balance: (old(pool).token_x_balance + amount_in) as u64,
                token_y_balance: (old(pool).token_y_balance - out) as u64,
                ..*old(pool)
            }),
            Err(e) => r == Err::<u64, AmmError>(e) && final(ledger)@ == old(ledger)@ && *final(pool)
                == *old(pool),
        },
        r is Ok ==> final(pool).token_x_balance * final(pool).token_y_balance
            <= old(pool).token_x_balance * old(pool).token_y_balance,
        in_sync(*old(pool), old(ledger)@) ==> in_sync(*final(pool), final(ledger)@),
{
    instructions::swap(pool, ledger, ctx, program_id, amount_in)
}

/// Deposits into both reserves; see `instructions::add_liquidity`.
pub fn add_liquidity(
    pool: &mut Pool,
    ledger: &mut Ledger,
    ctx: &AddLiquidityAccount,
    program_id: &Key,
    amount_a: u64,
    amount_b: u64,
) -> (r: Result<(), AmmError>)
    requires
        old(ledger).wf(),
    ensures
        final(ledger).wf(),
        match add_liquidity_result(*old(pool), old(ledger)@, *ctx, program_id@, amount_a, amount_b) {
            Ok(s) => r is Ok && final(ledger)@ == s && *final(pool) == (Pool {
                token_x_balance: (old(pool).token_x_balance + amount_a) as u64,
                token_y_balance: (old(pool).token_y_balance + amount_b) as u64,
                ..*old(pool)
            }),
            Err(e) => r == Err::<(), AmmError>(e) && final(ledger)@ == old(ledger)@ && *final(pool)
                == *old(pool),
        },
        in_sync(*old(pool), old(ledger)@) ==> in_sync(*final(pool), final(ledger)@),
{
    instructions::add_liquidity(pool, ledger, ctx, program_id, amount_a, amount_b)
}

} // verus!
