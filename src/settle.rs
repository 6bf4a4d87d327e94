use vstd::prelude::*;

use crate::address::Address;
use crate::error::VaultError;
use crate::split::{
    compute_split, fee_share, lemma_split_conserves_amount, merchant_share, referrer_share,
};
use crate::state::{leg, transfer_total, LedgerTransfer, TokensSettled, Vault};

verus! {

/// A referrer: the party credited, and the token account that receives its
/// share.
#[derive(Clone, Copy, Debug)]
pub struct Referrer {
    pub identity: Address,
    pub token_account: Address,
}

/// The accounts a settlement reads, as plain values.
#[derive(Clone, Copy, Debug)]
pub struct Settle {
    /// The caller, who signed the request.
    pub merchant: Address,
    /// The vault's own address, the authority of its holding account.
    pub vault_key: Address,
    /// The vault record.
    pub vault: Vault,
    /// The vault's holding account.
    pub vault_ata: Address,
    /// The balance of the holding account.
    pub vault_balance: u64,
    /// The owner's token account, which receives the owner's share.
    pub merchant_ata: Address,
    /// The referrer, when there is one.
    pub referrer: Option<Referrer>,
    /// The fee receiver.
    pub fee_receiver: Address,
    /// The fee receiver's token account.
    pub fee_ata: Address,
}

/// What an accepted settlement does: the ledger transfers to perform, in
/// order, the audit record, and the holding balance once the transfers are
/// done.
#[derive(Clone, Debug)]
pub struct Settlement {
    pub transfers: Vec<LedgerTransfer>,
    pub event: TokensSettled,
    pub remaining_balance: u64,
}

/// The error a settlement request meets first, or none when it is valid.
/// Authorization is checked first, then the amount, the basis points, the
/// referrer share and the holding balance.
pub open spec fn settle_error(ctx: Settle, amount: u64, fee_bps: u16, referrer_bps: u16) -> Option<
    VaultError,
> {
    if ctx.merchant != ctx.vault.merchant {
        Some(VaultError::NotAuthorized)
    } else if amount == 0 {
        Some(VaultError::AmountIsZero)
    } else if fee_bps > 10000 || referrer_bps > 10000 {
        Some(VaultError::InvalidBasisPoints)
    } else if fee_bps + referrer_bps > 10000 {
        Some(VaultError::InvalidBasisPoints)
    } else if ctx.referrer is None && referrer_bps > 0 {
        Some(VaultError::InvalidBasisPoints)
    } else if ctx.vault_balance < amount {
        Some(VaultError::InsufficientVaultBalance)
    } else {
        None
    }
}

/// The transfers of a settlement in their fixed order: owner, referrer, fee;
/// each out of the holding account under the vault's authority, and only
/// those with a positive amount.
pub open spec fn settlement_legs(
    ctx: Settle,
    merchant_amount: int,
    referrer_amount: int,
    fee_amount: int,
) -> Seq<LedgerTransfer> {
    leg(ctx.vault_ata, ctx.merchant_ata, ctx.vault_key, merchant_amount) + match ctx.referrer {
        Some(r) => leg(ctx.vault_ata, r.token_account, ctx.vault_key, referrer_amount),
        None => seq![],
    } + leg(ctx.vault_ata, ctx.fee_ata, ctx.vault_key, fee_amount)
}

/// The referrer's identity, when there is one.
pub open spec fn referrer_identity(ctx: Settle) -> Option<Address> {
    match ctx.referrer {
        Some(r) => Some(r.identity),
        None => None,
    }
}

fn push_leg(
    transfers: &mut Vec<LedgerTransfer>,
    from: Address,
    to: Address,
    authority: Address,
    amount: u64,
)
    ensures
        final(transfers)@ == old(transfers)@ + leg(from, to, authority, amount as int),
{
    if amount > 0 {
        transfers.push(LedgerTransfer { from, to, authority, amount });
    } else {
        assert(old(transfers)@ + seq![] =~= old(transfers)@);
    }
}

proof fn lemma_total_append(s: Seq<LedgerTransfer>, t: Seq<LedgerTransfer>)
    ensures
        transfer_total(s + t) == transfer_total(s) + transfer_total(t),
    decreases t.len(),
{
    if t.len() == 0 {
        assert(s + t =~= s);
    } else {
        assert((s + t).drop_last() =~= s + t.drop_last());
        lemma_total_append(s, t.drop_last());
    }
}

proof fn lemma_leg_total(from: Address, to: Address, authority: Address, amount: int)
    requires
        0 <= amount <= u64::MAX,
    ensures
        transfer_total(leg(from, to, authority, amount)) == amount,
{
    let s = leg(from, to, authority, amount);
    if amount > 0 {
        assert(s.drop_last() =~= Seq::<LedgerTransfer>::empty());
        assert(transfer_total(s.drop_last()) == 0);
        assert(s.last().amount == amount);
    } else {
        assert(s.len() == 0);
    }
}

/// Validates a settlement request and, when it is valid, splits `amount`
/// between the owner, the referrer and the fee receiver. Nothing is handed
/// out on error: the holding account keeps its balance.
pub fn settle(ctx: &Settle, amount: u64, fee_bps: u16, referrer_bps: u16) -> (r: Result<
    Settlement,
    VaultError,
>)
    ensures
        r is Ok <==> settle_error(*ctx, amount, fee_bps, referrer_bps) is None,
        r matches Err(e) ==> settle_error(*ctx, amount, fee_bps, referrer_bps) == Some(e),
        r matches Ok(s) ==> {
            let has_referrer = ctx.referrer is Some;
            let merchant_amount = merchant_share(amount, fee_bps, referrer_bps, has_referrer);
            let referrer_amount = referrer_share(amount, referrer_bps, has_referrer);
            let fee_amount = fee_share(amount, fee_bps);
            &&& s.event == (TokensSettled {
                vault: ctx.vault_key,
                amount,
                merchant_amount: merchant_amount as u64,
                referrer_amount: referrer_amount as u64,
                fee_amount: fee_amount as u64,
                referrer: referrer_identity(*ctx),
            })
            &&& s.event.merchant_amount + s.event.referrer_amount + s.event.fee_amount == amount
            &&& s.transfers@ == settlement_legs(*ctx, merchant_amount, referrer_amount, fee_amount)
            &&& transfer_total(s.transfers@) == amount
            &&& s.remaining_balance == ctx.vault_balance - amount
        },
{
    if !(ctx.merchant == ctx.vault.merchant) {
        return Err(VaultError::NotAuthorized);
    }
    if amount == 0 {
        return Err(VaultError::AmountIsZero);
    }
    if fee_bps > 10000 || referrer_bps > 10000 {
        return Err(VaultError::InvalidBasisPoints);
    }
    if (fee_bps as u32) + (referrer_bps as u32) > 10000 {
        return Err(VaultError::InvalidBasisPoints);
    }
    if ctx.referrer.is_none() && referrer_bps > 0 {
        return Err(VaultError::InvalidBasisPoints);
    }
    if ctx.vault_balance < amount {
        return Err(VaultError::InsufficientVaultBalance);
    }
    let has_referrer = ctx.referrer.is_some();
    proof {
        lemma_split_conserves_amount(amount, fee_bps, referrer_bps, has_referrer);
    }
    let split = match compute_split(amount, fee_bps, referrer_bps, has_referrer) {
        Ok(s) => s,
        Err(e) => {
            return Err(e);
        },
    };
    let mut transfers: Vec<LedgerTransfer> = Vec::new();
    push_leg(&mut transfers, ctx.vault_ata, ctx.merchant_ata, ctx.vault_key, split.merchant_amount);
    let referrer_id: Option<Address> = match ctx.referrer {
        Some(referrer) => {
            push_leg(
                &mut transfers,
                ctx.vault_ata,
                referrer.token_account,
                ctx.vault_key,
                split.referrer_amount,
            );
            Some(referrer.identity)
        },
        None => {
            assert(transfers@ + seq![] =~= transfers@);
            None
        },
    };
    push_leg(&mut transfers, ctx.vault_ata, ctx.fee_ata, ctx.vault_key, split.fee_amount);
    proof {
        let m = split.merchant_amount as int;
        let rf = split.referrer_amount as int;
        let f = split.fee_amount as int;
        let l1 = leg(ctx.vault_ata, ctx.merchant_ata, ctx.vault_key, m);
        let l2 = match ctx.referrer {
            Some(x) => leg(ctx.vault_ata, x.token_account, ctx.vault_key, rf),
            None => seq![],
        };
        let l3 = leg(ctx.vault_ata, ctx.fee_ata, ctx.vault_key, f);
        assert(transfers@ =~= l1 + l2 + l3);
        lemma_leg_total(ctx.vault_ata, ctx.merchant_ata, ctx.vault_key, m);
        lemma_leg_total(ctx.vault_ata, ctx.fee_ata, ctx.vault_key, f);
        match ctx.referrer {
            Some(x) => lemma_leg_total(ctx.vault_ata, x.token_account, ctx.vault_key, rf),
            None => {
                assert(rf == 0);
                assert(transfer_total(l2) == 0);
            },
        }
        lemma_total_append(l1, l2);
        lemma_total_append(l1 + l2, l3);
    }
    let event = TokensSettled {
        vault: ctx.vault_key,
        amount,
        merchant_amount: split.merchant_amount,
        referrer_amount: split.referrer_amount,
        fee_amount: split.fee_amount,
        referrer: referrer_id,
    };
    Ok(Settlement { transfers, event, remaining_balance: ctx.vault_balance - amount })
}

} // verus!
