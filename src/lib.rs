//! A custodial token vault: vault records, deposits, and the settlement
//! engine that splits a withdrawal between the vault's owner, an optional
//! referrer and a fee receiver.
//!
//! The library decides; the host runtime executes. Each operation takes a
//! plain-value snapshot of the accounts it touches and returns the ledger
//! transfers to perform and the audit event to record, or a typed error
//! before anything moves.
pub mod address;
pub mod deposit;
pub mod error;
pub mod settle;
pub mod split;
pub mod state;
pub mod vault;

pub use address::Address;
pub use deposit::{deposit, Deposit, DepositOutcome};
pub use error::VaultError;
pub use settle::{settle, Referrer, Settle, Settlement};
pub use split::{compute_split, proportional_share, SettlementSplit, BASIS_POINTS_DENOMINATOR};
pub use state::{LedgerTransfer, TokensDeposited, TokensSettled, Vault, VaultInitialized};
pub use vault::{initialize_vault, InitializeVault, VaultRegistry};
