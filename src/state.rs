//! The pool record: identifiers, fee rate and the two reserves.
use vstd::prelude::*;
use crate::contexts::InitializePoolAccount;
use crate::error::AmmError;
use crate::key::Key;
use crate::ledger::{TokenAccount, balance, has_account};

verus! {

/// The highest fee rate a pool may carry, in basis points (100%).
pub const MAX_FEE_BPS: u16 = 10000;

/// The persisted state of one pool for an ordered pair of assets.
#[derive(Clone, Copy, Debug)]
pub struct Pool {
    pub token_x_mint: Key,
    pub token_y_mint: Key,
    pub token_x_vault: Key,
    pub token_y_vault: Key,
    /// Stored and bounded, but not applied to the price of a trade.
    pub fee_bps: u16,
    pub authority: Key,
    pub bump: u8,
    pub token_x_balance: u64,
    pub token_y_balance: u64,
}

impl Pool {
    /// Size of the persisted record: an 8-byte tag, five identifiers of 32
    /// bytes, the 2-byte fee, the bump byte and two 8-byte reserves.
    pub const INIT_SPACE: usize = 187;

    pub open spec fn wf(&self) -> bool {
        self.fee_bps <= MAX_FEE_BPS
    }

    /// A fresh record for the accounts of `ctx`, with empty reserves; a fee
    /// rate above 10000 basis points is refused.
    pub fn create(ctx: &InitializePoolAccount, bump: u8, fee_bps: u16) -> (r: Result<Pool, AmmError>)
        ensures
            fee_bps > MAX_FEE_BPS ==> r == Err::<Pool, AmmError>(AmmError::InvalidFeeRate),
            fee_bps <= MAX_FEE_BPS ==> r == Ok::<Pool, AmmError>(
                Pool {
                    token_x_mint: ctx.token_x_mint,
                    token_y_mint: ctx.token_y_mint,
                    token_x_vault: ctx.token_x_vault,
                    token_y_vault: ctx.token_y_vault,
                    fee_bps,
                    authority: ctx.authority,
                    bump,
                    token_x_balance: 0,
                    token_y_balance: 0,
                },
            ),
            r matches Ok(p) ==> p.wf(),
    {
        if fee_bps > MAX_FEE_BPS {
            return Err(AmmError::InvalidFeeRate);
        }
        Ok(
            Pool {
                token_x_mint: ctx.token_x_mint,
                token_y_mint: ctx.token_y_mint,
                token_x_vault: ctx.token_x_vault,
                token_y_vault: ctx.token_y_vault,
                fee_bps,
                authority: ctx.authority,
                bump,
                token_x_balance: 0,
                token_y_balance: 0,
            },
        )
    }

    /// Books a completed trade: `amount_in` joins reserve X and `amount_out`
    /// leaves reserve Y. Nothing changes where either would leave the range.
    pub fn record_swap(&mut self, amount_in: u64, amount_out: u64) -> (r: Result<(), AmmError>)
        ensures
            old(self).token_x_balance + amount_in > u64::MAX ==> r == Err::<(), AmmError>(
                AmmError::ArithmeticOverflow,
            ),
            old(self).token_x_balance + amount_in <= u64::MAX && amount_out
                > old(self).token_y_balance ==> r == Err::<(), AmmError>(
                AmmError::InvariantViolation,
            ),
            r is Err ==> *final(self) == *old(self),
            r is Ok <==> old(self).token_x_balance + amount_in <= u64::MAX && amount_out
                <= old(self).token_y_balance,
            r is Ok ==> *final(self) == (Pool {
                token_x_balance: (old(self).token_x_balance + amount_in) as u64,
                token_y_balance: (old(self).token_y_balance - amount_out) as u64,
                ..*old(self)
            }),
    {
        let x = match self.token_x_balance.checked_add(amount_in) {
            Some(v) => v,
            None => {
                return Err(AmmError::ArithmeticOverflow);
            },
        };
        let y = match self.token_y_balance.checked_sub(amount_out) {
            Some(v) => v,
            None => {
                return Err(AmmError::InvariantViolation);
            },
        };
        self.token_x_balance = x;
        self.token_y_balance = y;
        Ok(())
    }

    /// Books a completed deposit into both reserves. Nothing changes where
    /// either reserve would leave the range.
    pub fn record_deposit(&mut self, amount_x: u64, amount_y: u64) -> (r: Result<(), AmmError>)
        ensures
            r is Ok <==> old(self).token_x_balance + amount_x <= u64::MAX
                && old(self).token_y_balance + amount_y <= u64::MAX,
            r is Err ==> r == Err::<(), AmmError>(AmmError::ArithmeticOverflow) && *final(self)
                == *old(self),
            r is Ok ==> *final(self) == (Pool {
                token_x_balance: (old(self).token_x_balance + amount_x) as u64,
                token_y_balance: (old(self).token_y_balance + amount_y) as u64,
                ..*old(self)
            }),
    {
        let x = match self.token_x_balance.checked_add(amount_x) {
            Some(v) => v,
            None => {
                return Err(AmmError::ArithmeticOverflow);
            },
        };
        let y = match self.token_y_balance.checked_add(amount_y) {
            Some(v) => v,
            None => {
                return Err(AmmError::ArithmeticOverflow);
            },
        };
        self.token_x_balance = x;
        self.token_y_balance = y;
        Ok(())
    }

    /// Both reserves, as `(reserve_x, reserve_y)`.
    pub fn reserves(&self) -> (r: (u64, u64))
        ensures
            r == (self.token_x_balance, self.token_y_balance),
    {
        (self.token_x_balance, self.token_y_balance)
    }
}

/// The reserves mirror the balances of the two distinct vaults.
pub open spec fn in_sync(pool: Pool, s: Seq<TokenAccount>) -> bool {
    &&& has_account(s, pool.token_x_vault@)
    &&& has_account(s, pool.token_y_vault@)
    &&& pool.token_x_vault@ != pool.token_y_vault@
    &&& balance(s, pool.token_x_vault@) == pool.token_x_balance
    &&& balance(s, pool.token_y_vault@) == pool.token_y_balance
}

/// Some pool in `pools` serves the ordered pair `(x, y)`.
pub open spec fn pair_taken(pools: Seq<Pool>, x: Seq<u8>, y: Seq<u8>) -> bool {
    exists|i: int|
        0 <= i < pools.len() && #[trigger] pools[i].token_x_mint@ == x && pools[i].token_y_mint@ == y
}

/// No two pools serve the same ordered pair.
pub open spec fn pairs_unique(pools: Seq<Pool>) -> bool {
    forall|i: int, j: int|
        0 <= i < pools.len() && 0 <= j < pools.len() && i != j ==> !(#[trigger] pools[i].token_x_mint@
            == #[trigger] pools[j].token_x_mint@ && pools[i].token_y_mint@ == pools[j].token_y_mint@)
}

/// Whether some pool in `pools` already serves `(x, y)`.
pub fn find_pair(pools: &Vec<Pool>, x: &Key, y: &Key) -> (r: bool)
    ensures
        r == pair_taken(pools@, x@, y@),
{
    let mut i: usize = 0;
    while i < pools.len()
        invariant
            i <= pools@.len(),
            forall|j: int|
                0 <= j < i ==> !(#[trigger] pools@[j].token_x_mint@ == x@ && pools@[j].token_y_mint@
                    == y@),
        decreases pools@.len() - i,
    {
        if pools[i].token_x_mint.same_as(x) && pools[i].token_y_mint.same_as(y) {
            assert(pools@[i as int].token_x_mint@ == x@);
            return true;
        }
        i = i + 1;
    }
    false
}

} // verus!
