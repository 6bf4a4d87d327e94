use vstd::prelude::*;

use crate::address::Address;

verus! {

/// The persistent record of one custody relationship. Its fields never
/// change once the vault is created.
#[derive(Clone, Copy, Debug, PartialEq, Eq)]
pub struct Vault {
    /// The owner, the only party allowed to settle.
    pub merchant: Address,
    /// The token mint whose units the vault holds.
    pub mint: Address,
    /// The derivation proof that lets the vault sign for its holding account.
    pub bump: u8,
}

/// One instruction for the token ledger: move `amount` units from one token
/// account to another, signed by `authority`.
#[derive(Clone, Copy, Debug, PartialEq, Eq)]
pub struct LedgerTransfer {
    pub from: Address,
    pub to: Address,
    pub authority: Address,
    pub amount: u64,
}

/// Audit record of a vault's creation.
#[derive(Clone, Copy, Debug, PartialEq, Eq)]
pub struct VaultInitialized {
    pub merchant: Address,
    pub mint: Address,
    pub vault: Address,
    pub vault_ata: Address,
}

/// Audit record of a deposit.
#[derive(Clone, Copy, Debug, PartialEq, Eq)]
pub struct TokensDeposited {
    pub vault: Address,
    pub depositor: Address,
    pub amount: u64,
}

/// Audit record of a settlement and of the split it made.
#[derive(Clone, Copy, Debug, PartialEq, Eq)]
pub struct TokensSettled {
    pub vault: Address,
    pub amount: u64,
    pub merchant_amount: u64,
    pub referrer_amount: u64,
    pub fee_amount: u64,
    pub referrer: Option<Address>,
}

/// The ledger instruction that moves `amount` units, as a sequence: a single
/// transfer when the amount is positive, nothing when it is zero.
pub open spec fn leg(from: Address, to: Address, authority: Address, amount: int) -> Seq<
    LedgerTransfer,
> {
    if amount > 0 {
        seq![LedgerTransfer { from, to, authority, amount: amount as u64 }]
    } else {
        seq![]
    }
}

/// The total number of units that a sequence of transfers moves.
pub open spec fn transfer_total(transfers: Seq<LedgerTransfer>) -> int
    decreases transfers.len(),
{
    if transfers.len() == 0 {
        0
    } else {
        transfer_total(transfers.drop_last()) + transfers.last().amount
    }
}

} // verus!
