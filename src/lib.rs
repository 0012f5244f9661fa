//! Accounting and pricing core of a two-asset constant-product market maker:
//! the pool record, the checks that tie a request to its pool and vaults, the
//! pricing of trades, deposits, and an in-memory custody ledger against which
//! the instructions move funds.
pub mod address;
pub mod contexts;
pub mod error;
pub mod instructions;
pub mod key;
pub mod ledger;
pub mod micro_amm;
pub mod pricing;
pub mod state;
pub mod validation;
