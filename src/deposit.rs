use vstd::prelude::*;

use crate::address::Address;
use crate::error::VaultError;
use crate::state::{LedgerTransfer, TokensDeposited};

verus! {

/// The accounts a deposit reads, as plain values.
#[derive(Clone, Copy, Debug)]
pub struct Deposit {
    /// The depositor, who signed the request. Anyone may deposit.
    pub depositor: Address,
    /// The vault's own address.
    pub vault_key: Address,
    /// The depositor's token account, the source of the funds.
    pub depositor_ata: Address,
    /// The vault's holding account.
    pub vault_ata: Address,
}

/// What an accepted deposit does: one ledger transfer and its audit record.
#[derive(Clone, Copy, Debug)]
pub struct DepositOutcome {
    pub transfer: LedgerTransfer,
    pub event: TokensDeposited,
}

/// Accepts `amount` units from the depositor into the vault's holding
/// account, signed by the depositor. A zero amount is refused.
pub fn deposit(ctx: &Deposit, amount: u64) -> (r: Result<DepositOutcome, VaultError>)
    ensures
        r is Err <==> amount == 0,
        r matches Err(e) ==> e == VaultError::AmountIsZero,
        r matches Ok(d) ==> {
            &&& d.transfer == (LedgerTransfer {
                from: ctx.depositor_ata,
                to: ctx.vault_ata,
                authority: ctx.depositor,
                amount,
            })
            &&& d.event == (TokensDeposited { vault: ctx.vault_key, depositor: ctx.depositor, amount })
        },
{
    if amount == 0 {
        return Err(VaultError::AmountIsZero);
    }
    let transfer = LedgerTransfer {
        from: ctx.depositor_ata,
        to: ctx.vault_ata,
        authority: ctx.depositor,
        amount,
    };
    let event = TokensDeposited { vault: ctx.vault_key, depositor: ctx.depositor, amount };
    Ok(DepositOutcome { transfer, event })
}

} // verus!
