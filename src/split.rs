use vstd::prelude::*;

use crate::error::VaultError;

#[allow(unused_imports)]
use vstd::arithmetic::div_mod::{lemma_fundamental_div_mod, lemma_mod_pos_bound};

verus! {

/// The number of basis points in a whole.
pub const BASIS_POINTS_DENOMINATOR: u64 = 10000;

/// `bps` basis points of `amount`, rounded down.
pub open spec fn share_of(amount: int, bps: int) -> int {
    amount * bps / 10000
}

/// The fee receiver's share.
pub open spec fn fee_share(amount: u64, fee_bps: u16) -> int {
    share_of(amount as int, fee_bps as int)
}

/// The referrer's share: zero when there is no referrer or no referrer share.
pub open spec fn referrer_share(amount: u64, referrer_bps: u16, has_referrer: bool) -> int {
    if has_referrer && referrer_bps > 0 {
        share_of(amount as int, referrer_bps as int)
    } else {
        0
    }
}

/// The owner's share: what is left of the amount, rounding remainder included.
pub open spec fn merchant_share(
    amount: u64,
    fee_bps: u16,
    referrer_bps: u16,
    has_referrer: bool,
) -> int {
    amount - fee_share(amount, fee_bps) - referrer_share(amount, referrer_bps, has_referrer)
}

/// The three shares of a settled amount.
#[derive(Clone, Copy, Debug)]
pub struct SettlementSplit {
    pub merchant_amount: u64,
    pub referrer_amount: u64,
    pub fee_amount: u64,
}

proof fn lemma_share_bounded(amount: int, bps: int)
    requires
        0 <= amount,
        0 <= bps <= 10000,
    ensures
        0 <= share_of(amount, bps) <= amount,
{
    assert(0 <= amount * bps <= amount * 10000) by (nonlinear_arith)
        requires
            0 <= amount,
            0 <= bps <= 10000,
    ;
    lemma_fundamental_div_mod(amount * bps, 10000);
    lemma_mod_pos_bound(amount * bps, 10000);
    let q = amount * bps / 10000;
    assert(0 <= q <= amount) by (nonlinear_arith)
        requires
            10000 * q + (amount * bps) % 10000 == amount * bps,
            0 <= (amount * bps) % 10000 < 10000,
            0 <= amount * bps <= amount * 10000,
    ;
}

/// Splitting never creates or loses funds: when the two basis-point shares
/// sum to at most 10,000, the fee and referrer shares fit in the amount, and
/// the owner's remainder together with them adds up to the amount exactly.
pub proof fn lemma_split_conserves_amount(
    amount: u64,
    fee_bps: u16,
    referrer_bps: u16,
    has_referrer: bool,
)
    requires
        fee_bps + referrer_bps <= 10000,
    ensures
        fee_share(amount, fee_bps) + referrer_share(amount, referrer_bps, has_referrer) <= amount,
        merchant_share(amount, fee_bps, referrer_bps, has_referrer) >= 0,
        merchant_share(amount, fee_bps, referrer_bps, has_referrer) + referrer_share(
            amount,
            referrer_bps,
            has_referrer,
        ) + fee_share(amount, fee_bps) == amount,
{
    let a = amount as int;
    let x = a * fee_bps;
    let y = a * referrer_bps;
    assert(0 <= x && 0 <= y && x + y <= a * 10000) by (nonlinear_arith)
        requires
            x == a * fee_bps,
            y == a * referrer_bps,
            0 <= a,
            0 <= fee_bps,
            0 <= referrer_bps,
            fee_bps + referrer_bps <= 10000,
    ;
    lemma_fundamental_div_mod(x, 10000);
    lemma_mod_pos_bound(x, 10000);
    lemma_fundamental_div_mod(y, 10000);
    lemma_mod_pos_bound(y, 10000);
    let q1 = x / 10000;
    let q2 = y / 10000;
    assert(q1 + q2 <= a) by (nonlinear_arith)
        requires
            10000 * q1 + x % 10000 == x,
            10000 * q2 + y % 10000 == y,
            0 <= x % 10000,
            0 <= y % 10000,
            x + y <= a * 10000,
    ;
    assert(0 <= q2) by (nonlinear_arith)
        requires
            10000 * q2 + y % 10000 == y,
            y % 10000 < 10000,
            0 <= y,
    ;
}

/// `bps` basis points of `amount`, rounded down, computed in a width that
/// cannot overflow.
pub fn proportional_share(amount: u64, bps: u16) -> (r: u64)
    requires
        bps <= 10000,
    ensures
        r == share_of(amount as int, bps as int),
{
    proof {
        lemma_share_bounded(amount as int, bps as int);
        assert((amount as u128) * (bps as u128) <= u64::MAX as u128 * 10000) by (nonlinear_arith)
            requires
                bps <= 10000,
        ;
    }
    let product: u128 = (amount as u128) * (bps as u128);
    (product / (BASIS_POINTS_DENOMINATOR as u128)) as u64
}

/// Splits `amount` into fee, referrer and owner shares. The fee and referrer
/// shares are taken first, each rounded down; the owner receives the rest,
/// and the split is refused when nothing non-negative is left for the owner.
pub fn compute_split(amount: u64, fee_bps: u16, referrer_bps: u16, has_referrer: bool) -> (r:
    Result<SettlementSplit, VaultError>)
    requires
        fee_bps <= 10000,
        referrer_bps <= 10000,
    ensures
        r is Ok <==> fee_share(amount, fee_bps) + referrer_share(amount, referrer_bps, has_referrer)
            <= amount,
        r matches Ok(s) ==> {
            &&& s.fee_amount == fee_share(amount, fee_bps)
            &&& s.referrer_amount == referrer_share(amount, referrer_bps, has_referrer)
            &&& s.merchant_amount == merchant_share(amount, fee_bps, referrer_bps, has_referrer)
        },
        r matches Err(e) ==> e == VaultError::InvalidSettlement,
{
    let fee_amount = proportional_share(amount, fee_bps);
    let referrer_amount: u64 = if referrer_bps > 0 && has_referrer {
        proportional_share(amount, referrer_bps)
    } else {
        0
    };
    match amount.checked_sub(fee_amount) {
        None => Err(VaultError::InvalidSettlement),
        Some(rest) => match rest.checked_sub(referrer_amount) {
            None => Err(VaultError::InvalidSettlement),
            Some(merchant_amount) => Ok(SettlementSplit { merchant_amount, referrer_amount, fee_amount }),
        },
    }
}

} // verus!
