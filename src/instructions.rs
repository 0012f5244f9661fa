//! The three instructions: pool creation, deposit and trade. Each one either
//! commits every change it makes or returns an error and changes nothing.
use vstd::prelude::*;
use crate::address::{canonical_program_address, find_pool_address, pool_address, pool_seeds};
use crate::contexts::{AddLiquidityAccount, InitializePoolAccount, SwapAccount};
use crate::error::{AmmError, TransferError};
use crate::key::Key;
use crate::ledger::{
    Ledger,
    TokenAccount,
    has_account,
    lemma_index_of,
    lemma_transfer_balance,
    transfer_outcome,
};
use crate::pricing::{lemma_product_never_increases, quote_fits, quote_swap, swap_output};
use crate::state::{MAX_FEE_BPS, Pool, find_pair, in_sync, pair_taken, pairs_unique};
use crate::validation::{accounts_error, validate_accounts};

verus! {

/// What a trade of `amount_in` of asset X pays out before any funds move:
/// the amount of asset Y, or the error that stops the trade.
pub open spec fn swap_plan(pool: Pool, ctx: SwapAccount, program_id: Seq<u8>, amount_in: u64) -> Result<
    u64,
    AmmError,
> {
    let x = pool.token_x_balance;
    let y = pool.token_y_balance;
    match accounts_error(
        pool,
        ctx.pool@,
        ctx.token_x_vault@,
        ctx.token_y_vault@,
        ctx.user_token_x@,
        ctx.user_token_y@,
        ctx.user_signed,
        program_id,
    ) {
        Some(e) => Err(e),
        None => if amount_in == 0 {
            Err(AmmError::ZeroAmount)
        } else if !quote_fits(x, y, amount_in) {
            Err(AmmError::ArithmeticOverflow)
        } else {
            Ok(swap_output(x as int, y as int, amount_in as int) as u64)
        },
    }
}

/// What a trade of `amount_in` of asset X does: the amount of asset Y paid
/// out with the accounts afterwards, or the error that stops it.
pub open spec fn swap_result(
    pool: Pool,
    s: Seq<TokenAccount>,
    ctx: SwapAccount,
    program_id: Seq<u8>,
    amount_in: u64,
) -> Result<(u64, Seq<TokenAccount>), AmmError> {
    match swap_plan(pool, ctx, program_id, amount_in) {
        Err(e) => Err(e),
        Ok(out) => match transfer_outcome(
            s,
            ctx.user_token_x@,
            ctx.token_x_vault@,
            ctx.user@,
            amount_in,
        ) {
            Err(e) => Err(AmmError::Transfer(e)),
            Ok(s1) => match transfer_outcome(
                s1,
                ctx.token_y_vault@,
                ctx.user_token_y@,
                ctx.pool@,
                out,
            ) {
                Err(e) => Err(AmmError::Transfer(e)),
                Ok(s2) => Ok((out, s2)),
            },
        },
    }
}

/// Validates a trade and prices it, moving nothing: the first step of a
/// trade whose funds are moved by the host.
pub fn plan_swap(pool: &Pool, ctx: &SwapAccount, program_id: &Key, amount_in: u64) -> (r: Result<
    u64,
    AmmError,
>)
    ensures
        r == swap_plan(*pool, *ctx, program_id@, amount_in),
        r matches Ok(out) ==> out <= pool.token_y_balance && pool.token_x_balance + amount_in
            <= u64::MAX,
{
    let checked = validate_accounts(
        pool,
        &ctx.pool,
        &ctx.token_x_vault,
        &ctx.token_y_vault,
        &ctx.user_token_x,
        &ctx.user_token_y,
        ctx.user_signed,
        program_id,
    );
    if let Err(e) = checked {
        return Err(e);
    }
    quote_swap(pool.token_x_balance, pool.token_y_balance, amount_in)
}

/// Trades `amount_in` of asset X for asset Y at the constant-product price,
/// and returns the amount of asset Y paid out. The user pays into the X vault
/// on their own authority; the pool pays out of the Y vault on its own.
/// Only this direction is offered. The pool's fee rate is not applied.
pub fn swap(
    pool: &mut Pool,
    ledger: &mut Ledger,
    ctx: &SwapAccount,
    program_id: &Key,
    amount_in: u64,
) -> (r: Result<u64, AmmError>)
    requires
        old(ledger).wf(),
    ensures
        final(ledger).wf(),
        match swap_result(*old(pool), old(ledger)@, *ctx, program_id@, amount_in) {
            Ok((out, s)) => r == Ok::<u64, AmmError>(out) && final(ledger)@ == s && *final(pool) == (
            Pool {
                token_x_balance: (old(pool).token_x_balance + amount_in) as u64,
                token_y_balance: (old(pool).token_y_balance - out) as u64,
                ..*old(pool)
            }),
            Err(e) => r == Err::<u64, AmmError>(e) && final(ledger)@ == old(ledger)@ && *final(pool)
                == *old(pool),
        },
        accounts_error(
            *old(pool),
            ctx.pool@,
            ctx.token_x_vault@,
            ctx.token_y_vault@,
            ctx.user_token_x@,
            ctx.user_token_y@,
            ctx.user_signed,
            program_id@,
        ) is None ==> {
            &&& amount_in == 0 ==> r == Err::<u64, AmmError>(AmmError::ZeroAmount)
            &&& amount_in > 0 && old(pool).token_x_balance * old(pool).token_y_balance > u64::MAX
                ==> r == Err::<u64, AmmError>(AmmError::ArithmeticOverflow)
        },
        r is Err ==> *final(pool) == *old(pool) && final(ledger)@ == old(ledger)@,
        r is Ok ==> final(pool).token_x_balance * final(pool).token_y_balance
            <= old(pool).token_x_balance * old(pool).token_y_balance,
        in_sync(*old(pool), old(ledger)@) ==> in_sync(*final(pool), final(ledger)@),
{
    let x = pool.token_x_balance;
    let y = pool.token_y_balance;
    let out = match plan_swap(pool, ctx, program_id, amount_in) {
        Ok(out) => out,
        Err(e) => {
            return Err(e);
        },
    };
    let ghost s0 = ledger@;
    let saved = ledger.snapshot();
    if let Err(e) = ledger.transfer(&ctx.user_token_x, &ctx.token_x_vault, &ctx.user, amount_in) {
        return Err(AmmError::Transfer(e));
    }
    let ghost s1 = ledger@;
    if let Err(e) = ledger.transfer(&ctx.token_y_vault, &ctx.user_token_y, &ctx.pool, out) {
        *ledger = saved;
        return Err(AmmError::Transfer(e));
    }
    if let Err(e) = pool.record_swap(amount_in, out) {
        *ledger = saved;
        return Err(e);
    }
    proof {
        lemma_product_never_increases(x, y, amount_in);
        assert(out as int == swap_output(x as int, y as int, amount_in as int));
        assert(pool.token_y_balance as int == y - swap_output(x as int, y as int, amount_in as int));
        if in_sync(*old(pool), s0) {
            let vx = ctx.token_x_vault@;
            let vy = ctx.token_y_vault@;
            lemma_transfer_balance(s0, ctx.user_token_x@, vx, ctx.user@, amount_in, vx);
            lemma_transfer_balance(s0, ctx.user_token_x@, vx, ctx.user@, amount_in, vy);
            lemma_transfer_balance(s1, vy, ctx.user_token_y@, ctx.pool@, out, vx);
            lemma_transfer_balance(s1, vy, ctx.user_token_y@, ctx.pool@, out, vy);
        }
    }
    Ok(out)
}

/// Why a deposit of `amount_x` and `amount_y` is refused before any funds
/// move; `None` where it may go ahead.
pub open spec fn deposit_plan(
    pool: Pool,
    ctx: AddLiquidityAccount,
    program_id: Seq<u8>,
    amount_x: u64,
    amount_y: u64,
) -> Option<AmmError> {
    match accounts_error(
        pool,
        ctx.pool@,
        ctx.token_x_vault@,
        ctx.token_y_vault@,
        ctx.user_token_x@,
        ctx.user_token_y@,
        ctx.user_signed,
        program_id,
    ) {
        Some(e) => Some(e),
        None => if pool.token_x_balance + amount_x > u64::MAX || pool.token_y_balance + amount_y
            > u64::MAX {
            Some(AmmError::ArithmeticOverflow)
        } else {
            None
        },
    }
}

/// Validates a deposit, moving nothing: the first step of a deposit whose
/// funds are moved by the host.
pub fn plan_deposit(
    pool: &Pool,
    ctx: &AddLiquidityAccount,
    program_id: &Key,
    amount_x: u64,
    amount_y: u64,
) -> (r: Result<(), AmmError>)
    ensures
        match deposit_plan(*pool, *ctx, program_id@, amount_x, amount_y) {
            Some(e) => r == Err::<(), AmmError>(e),
            None => r is Ok,
        },
{
    let checked = validate_accounts(
        pool,
        &ctx.pool,
        &ctx.token_x_vault,
        &ctx.token_y_vault,
        &ctx.user_token_x,
        &ctx.user_token_y,
        ctx.user_signed,
        program_id,
    );
    if let Err(e) = checked {
        return Err(e);
    }
    if pool.token_x_balance > u64::MAX - amount_x || pool.token_y_balance > u64::MAX - amount_y {
        return Err(AmmError::ArithmeticOverflow);
    }
    Ok(())
}

/// What a deposit of `amount_x` and `amount_y` does: the accounts afterwards,
/// or the error that stops it.
pub open spec fn add_liquidity_result(
    pool: Pool,
    s: Seq<TokenAccount>,
    ctx: AddLiquidityAccount,
    program_id: Seq<u8>,
    amount_x: u64,
    amount_y: u64,
) -> Result<Seq<TokenAccount>, AmmError> {
    match deposit_plan(pool, ctx, program_id, amount_x, amount_y) {
        Some(e) => Err(e),
        None => match transfer_outcome(
            s,
            ctx.user_token_x@,
            ctx.token_x_vault@,
            ctx.user@,
            amount_x,
        ) {
            Err(e) => Err(AmmError::Transfer(e)),
            Ok(s1) => match transfer_outcome(
                s1,
                ctx.user_token_y@,
                ctx.token_y_vault@,
                ctx.user@,
                amount_y,
            ) {
                Err(e) => Err(AmmError::Transfer(e)),
                Ok(s2) => Ok(s2),
            },
        },
    }
}

/// Deposits `amount_x` of asset X and `amount_y` of asset Y from the user's
/// accounts into the vaults and credits both reserves. Deposits at any ratio,
/// and of nothing at all, are accepted; no share of the pool is issued.
pub fn add_liquidity(
    pool: &mut Pool,
    ledger: &mut Ledger,
    ctx: &AddLiquidityAccount,
    program_id: &Key,
    amount_x: u64,
    amount_y: u64,
) -> (r: Result<(), AmmError>)
    requires
        old(ledger).wf(),
    ensures
        final(ledger).wf(),
        match add_liquidity_result(*old(pool), old(ledger)@, *ctx, program_id@, amount_x, amount_y) {
            Ok(s) => r is Ok && final(ledger)@ == s && *final(pool) == (Pool {
                token_x_balance: (old(pool).token_x_balance + amount_x) as u64,
                token_y_balance: (old(pool).token_y_balance + amount_y) as u64,
                ..*old(pool)
            }),
            Err(e) => r == Err::<(), AmmError>(e) && final(ledger)@ == old(ledger)@ && *final(pool)
                == *old(pool),
        },
        in_sync(*old(pool), old(ledger)@) ==> in_sync(*final(pool), final(ledger)@),
{
    if let Err(e) = plan_deposit(pool, ctx, program_id, amount_x, amount_y) {
        return Err(e);
    }
    let ghost s0 = ledger@;
    let saved = ledger.snapshot();
    if let Err(e) = ledger.transfer(&ctx.user_token_x, &ctx.token_x_vault, &ctx.user, amount_x) {
        return Err(AmmError::Transfer(e));
    }
    let ghost s1 = ledger@;
    if let Err(e) = ledger.transfer(&ctx.user_token_y, &ctx.token_y_vault, &ctx.user, amount_y) {
        *ledger = saved;
        return Err(AmmError::Transfer(e));
    }
    if let Err(e) = pool.record_deposit(amount_x, amount_y) {
        *ledger = saved;
        return Err(e);
    }
    proof {
        if in_sync(*old(pool), s0) {
            let vx = ctx.token_x_vault@;
            let vy = ctx.token_y_vault@;
            lemma_transfer_balance(s0, ctx.user_token_x@, vx, ctx.user@, amount_x, vx);
            lemma_transfer_balance(s0, ctx.user_token_x@, vx, ctx.user@, amount_x, vy);
            lemma_transfer_balance(s1, ctx.user_token_y@, vy, ctx.user@, amount_y, vx);
            lemma_transfer_balance(s1, ctx.user_token_y@, vy, ctx.user@, amount_y, vy);
        }
    }
    Ok(())
}

/// A new custody account for the pool: empty, holding `mint`, owned by the
/// pool's address.
pub open spec fn vault_account(address: Key, mint: Key, pool: Key) -> TokenAccount {
    TokenAccount { address, mint, owner: pool, amount: 0 }
}

/// What creating the pool for `(ctx.token_x_mint, ctx.token_y_mint)` does:
/// the new record with the accounts afterwards, or the error that stops it.
/// The checks run in this order: the authority's signature, an existing pool
/// for the pair, the claimed pool address, the vaults being new and distinct,
/// the fee rate.
pub open spec fn initialize_result(
    pools: Seq<Pool>,
    s: Seq<TokenAccount>,
    ctx: InitializePoolAccount,
    program_id: Seq<u8>,
    fee_bps: u16,
) -> Result<(Pool, Seq<TokenAccount>), AmmError> {
    let found = canonical_program_address(
        pool_seeds(ctx.token_x_mint@, ctx.token_y_mint@),
        program_id,
    );
    if !ctx.authority_signed {
        Err(AmmError::MissingAuthorization)
    } else if pair_taken(pools, ctx.token_x_mint@, ctx.token_y_mint@) {
        Err(AmmError::DuplicatePool)
    } else if found is None || found.unwrap().0 != ctx.pool@ {
        Err(AmmError::AddressMismatch)
    } else if has_account(s, ctx.token_x_vault@) || has_account(s, ctx.token_y_vault@)
        || ctx.token_x_vault@ == ctx.token_y_vault@ {
        Err(AmmError::Transfer(TransferError::AccountExists))
    } else if fee_bps > MAX_FEE_BPS {
        Err(AmmError::InvalidFeeRate)
    } else {
        Ok(
            (
                Pool {
                    token_x_mint: ctx.token_x_mint,
                    token_y_mint: ctx.token_y_mint,
                    token_x_vault: ctx.token_x_vault,
                    token_y_vault: ctx.token_y_vault,
                    fee_bps,
                    authority: ctx.authority,
                    bump: found.unwrap().1,
                    token_x_balance: 0,
                    token_y_balance: 0,
                },
                s.push(vault_account(ctx.token_x_vault, ctx.token_x_mint, ctx.pool)).push(
                    vault_account(ctx.token_y_vault, ctx.token_y_mint, ctx.pool),
                ),
            ),
        )
    }
}

/// Creates the pool for the ordered pair `(ctx.token_x_mint,
/// ctx.token_y_mint)` with empty reserves and the given fee rate, opens its
/// two empty vaults, and appends the record to `pools`.
pub fn initialize_pool(
    pools: &mut Vec<Pool>,
    ledger: &mut Ledger,
    ctx: &InitializePoolAccount,
    program_id: &Key,
    fee_bps: u16,
) -> (r: Result<(), AmmError>)
    requires
        pairs_unique(old(pools)@),
        old(ledger).wf(),
    ensures
        pairs_unique(final(pools)@),
        final(ledger).wf(),
        match initialize_result(old(pools)@, old(ledger)@, *ctx, program_id@, fee_bps) {
            Ok((p, s)) => r is Ok && final(pools)@ == old(pools)@.push(p) && final(ledger)@ == s,
            Err(e) => r == Err::<(), AmmError>(e) && final(pools)@ == old(pools)@ && final(ledger)@
                == old(ledger)@,
        },
        r is Ok ==> final(pools)@.last().wf() && in_sync(final(pools)@.last(), final(ledger)@)
            && pool_address(
            ctx.token_x_mint@,
            ctx.token_y_mint@,
            final(pools)@.last().bump,
            program_id@,
        ) == Some(ctx.pool@),
{
    if !ctx.authority_signed {
        return Err(AmmError::MissingAuthorization);
    }
    if find_pair(pools, &ctx.token_x_mint, &ctx.token_y_mint) {
        return Err(AmmError::DuplicatePool);
    }
    let bump = match find_pool_address(&ctx.token_x_mint, &ctx.token_y_mint, program_id) {
        Some((a, b)) => {
            if !a.same_as(&ctx.pool) {
                return Err(AmmError::AddressMismatch);
            }
            b
        },
        None => {
            return Err(AmmError::AddressMismatch);
        },
    };
    if ledger.find(&ctx.token_x_vault).is_some() || ledger.find(&ctx.token_y_vault).is_some()
        || ctx.token_x_vault.same_as(&ctx.token_y_vault) {
        return Err(AmmError::Transfer(TransferError::AccountExists));
    }
    let pool = match Pool::create(ctx, bump, fee_bps) {
        Ok(p) => p,
        Err(e) => {
            return Err(e);
        },
    };
    let vault_x = TokenAccount {
        address: ctx.token_x_vault,
        mint: ctx.token_x_mint,
        owner: ctx.pool,
        amount: 0,
    };
    let vault_y = TokenAccount {
        address: ctx.token_y_vault,
        mint: ctx.token_y_mint,
        owner: ctx.pool,
        amount: 0,
    };
    let ghost s0 = ledger@;
    let opened_x = ledger.open_account(vault_x);
    let ghost s1 = ledger@;
    let opened_y = ledger.open_account(vault_y);
    proof {
        assert(!has_account(s1, ctx.token_y_vault@)) by {
            if has_account(s1, ctx.token_y_vault@) {
                let i = choose|i: int| 0 <= i < s1.len() && #[trigger] s1[i].address@ == ctx.token_y_vault@;
                if i < s0.len() {
                    assert(s0[i].address@ == ctx.token_y_vault@);
                }
            }
        }
    }
    let ghost p0 = pools@;
    pools.push(pool);
    proof {
        let ps = pools@;
        assert forall|i: int, j: int|
            0 <= i < ps.len() && 0 <= j < ps.len() && i != j implies !(
            #[trigger] ps[i].token_x_mint@ == #[trigger] ps[j].token_x_mint@ && ps[i].token_y_mint@
                == ps[j].token_y_mint@) by {
            if i < p0.len() && j < p0.len() {
                assert(ps[i] == p0[i] && ps[j] == p0[j]);
            }
        }
        let s2 = ledger@;
        let vx = ctx.token_x_vault@;
        let vy = ctx.token_y_vault@;
        assert(s2[s2.len() - 2].address@ == vx);
        assert(s2[s2.len() - 1].address@ == vy);
        lemma_index_of(s2, s2.len() - 2);
        lemma_index_of(s2, s2.len() - 1);
    }
    Ok(())
}

} // verus!
