//! Error kinds reported by the instructions and by the custody ledger.
use vstd::prelude::*;

verus! {

/// Failures of a movement of funds between custody accounts.
#[derive(Clone, Copy, Debug, PartialEq, Eq, Structural)]
pub enum TransferError {
    /// The source account holds less than the amount to move.
    InsufficientFunds,
    /// The authorizing principal does not own the source account.
    InvalidAuthority,
    /// One of the two accounts is not known to the ledger.
    UnknownAccount,
    /// The two accounts hold different assets.
    MintMismatch,
    /// The destination balance would leave the 64-bit range.
    Overflow,
    /// An account with this identifier already exists.
    AccountExists,
}

/// Every way an instruction can abort. An aborted instruction has no effect.
#[derive(Clone, Copy, Debug, PartialEq, Eq, Structural)]
pub enum AmmError {
    /// A pool record already exists for the ordered asset pair.
    DuplicatePool,
    /// The fee rate is above 10000 basis points.
    InvalidFeeRate,
    /// The supplied pool address is not the one derived from the record.
    AddressMismatch,
    /// The supplied custody accounts are not the record's vaults.
    VaultMismatch,
    /// A user account supplied for the trade is one of the pool's vaults.
    AccountConflict,
    /// A principal that has to authorize the instruction did not sign it.
    MissingAuthorization,
    /// A trade of nothing was requested.
    ZeroAmount,
    /// A product or a sum left the 64-bit range.
    ArithmeticOverflow,
    /// A subtraction on the reserves would have gone below zero.
    InvariantViolation,
    /// A movement of funds failed; the cause is carried verbatim.
    Transfer(TransferError),
}

} // verus!
