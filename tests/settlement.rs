use sol_token_vault::{
    settle, Address, LedgerTransfer, Referrer, Settle, Vault, VaultError,
};

fn addr(b: u8) -> Address {
    Address::new([b; 32])
}

fn ctx(balance: u64, referrer: Option<Referrer>) -> Settle {
    Settle {
        merchant: addr(1),
        vault_key: addr(2),
        vault: Vault { merchant: addr(1), mint: addr(3), bump: 254 },
        vault_ata: addr(4),
        vault_balance: balance,
        merchant_ata: addr(5),
        referrer,
        fee_receiver: addr(6),
        fee_ata: addr(7),
    }
}

fn referrer() -> Option<Referrer> {
    Some(Referrer { identity: addr(8), token_account: addr(9) })
}

#[test]
fn zero_amount_is_rejected() {
    let c = ctx(1000, None);
    assert_eq!(settle(&c, 0, 0, 0).unwrap_err(), VaultError::AmountIsZero);
}

#[test]
fn fee_above_ten_thousand_is_rejected() {
    let c = ctx(1000, None);
    assert_eq!(settle(&c, 100, 10001, 0).unwrap_err(), VaultError::InvalidBasisPoints);
}

#[test]
fn referrer_above_ten_thousand_is_rejected() {
    let c = ctx(1000, referrer());
    assert_eq!(settle(&c, 100, 0, 10001).unwrap_err(), VaultError::InvalidBasisPoints);
}

#[test]
fn shares_summing_above_ten_thousand_are_rejected() {
    let c = ctx(1000, referrer());
    assert_eq!(settle(&c, 100, 6000, 5000).unwrap_err(), VaultError::InvalidBasisPoints);
}

#[test]
fn referrer_share_without_referrer_is_rejected() {
    let c = ctx(1000, None);
    assert_eq!(settle(&c, 100, 0, 500).unwrap_err(), VaultError::InvalidBasisPoints);
}

#[test]
fn insufficient_balance_is_rejected_and_balance_kept() {
    let c = ctx(50, None);
    assert_eq!(settle(&c, 100, 0, 0).unwrap_err(), VaultError::InsufficientVaultBalance);
    assert_eq!(c.vault_balance, 50);
}

#[test]
fn non_owner_is_not_authorized_and_balance_kept() {
    let mut c = ctx(1000, None);
    c.merchant = addr(42);
    assert_eq!(settle(&c, 100, 0, 0).unwrap_err(), VaultError::NotAuthorized);
    assert_eq!(c.vault_balance, 1000);
}

#[test]
fn authorization_is_checked_before_the_amount() {
    let mut c = ctx(1000, None);
    c.merchant = addr(42);
    assert_eq!(settle(&c, 0, 0, 0).unwrap_err(), VaultError::NotAuthorized);
}

#[test]
fn orphan_referrer_share_is_checked_before_the_balance() {
    let c = ctx(10, None);
    assert_eq!(settle(&c, 100, 0, 500).unwrap_err(), VaultError::InvalidBasisPoints);
}

#[test]
fn rounding_example_gives_remainder_to_owner() {
    let c = ctx(10000, None);
    let s = settle(&c, 10000, 333, 0).unwrap();
    assert_eq!(s.event.fee_amount, 333);
    assert_eq!(s.event.merchant_amount, 9667);
    assert_eq!(s.event.referrer_amount, 0);
    assert_eq!(s.event.merchant_amount + s.event.referrer_amount + s.event.fee_amount, 10000);
    assert_eq!(s.remaining_balance, 0);
    assert_eq!(s.transfers.len(), 2);
}

#[test]
fn three_way_split_conserves_amount() {
    let c = ctx(5000, referrer());
    let s = settle(&c, 999, 250, 125).unwrap();
    assert_eq!(s.event.fee_amount, 24);
    assert_eq!(s.event.referrer_amount, 12);
    assert_eq!(s.event.merchant_amount, 963);
    assert_eq!(s.event.merchant_amount + s.event.referrer_amount + s.event.fee_amount, 999);
    assert_eq!(s.event.referrer, Some(addr(8)));
    assert_eq!(s.event.vault, addr(2));
    assert_eq!(s.remaining_balance, 4001);
    assert_eq!(
        s.transfers,
        vec![
            LedgerTransfer { from: addr(4), to: addr(5), authority: addr(2), amount: 963 },
            LedgerTransfer { from: addr(4), to: addr(9), authority: addr(2), amount: 12 },
            LedgerTransfer { from: addr(4), to: addr(7), authority: addr(2), amount: 24 },
        ]
    );
    let total: u64 = s.transfers.iter().map(|t| t.amount).sum();
    assert_eq!(total, 999);
}

#[test]
fn conservation_holds_at_the_full_sum_and_largest_amount() {
    let c = ctx(u64::MAX, referrer());
    let s = settle(&c, u64::MAX, 3333, 6667).unwrap();
    let e = s.event;
    assert_eq!(e.merchant_amount as u128 + e.referrer_amount as u128 + e.fee_amount as u128, u64::MAX as u128);
    assert_eq!(e.fee_amount, ((u64::MAX as u128 * 3333) / 10000) as u64);
    assert_eq!(e.referrer_amount, ((u64::MAX as u128 * 6667) / 10000) as u64);
}

#[test]
fn whole_amount_to_fee_leaves_owner_nothing() {
    let c = ctx(100, None);
    let s = settle(&c, 100, 10000, 0).unwrap();
    assert_eq!(s.event.fee_amount, 100);
    assert_eq!(s.event.merchant_amount, 0);
    assert_eq!(
        s.transfers,
        vec![LedgerTransfer { from: addr(4), to: addr(7), authority: addr(2), amount: 100 }]
    );
}

#[test]
fn zero_referrer_share_with_referrer_moves_nothing_to_referrer() {
    let c = ctx(100, referrer());
    let s = settle(&c, 100, 0, 0).unwrap();
    assert_eq!(s.event.merchant_amount, 100);
    assert_eq!(s.event.referrer, Some(addr(8)));
    assert_eq!(s.transfers.len(), 1);
    assert_eq!(s.transfers[0].to, addr(5));
}

#[test]
fn referrer_share_rounds_down() {
    let c = ctx(100, referrer());
    let s = settle(&c, 7, 0, 5000).unwrap();
    assert_eq!(s.event.referrer_amount, 3);
    assert_eq!(s.event.merchant_amount, 4);
}
