use sol_token_vault::{compute_split, proportional_share, VaultError, BASIS_POINTS_DENOMINATOR};

#[test]
fn proportional_share_multiplies_before_dividing() {
    assert_eq!(proportional_share(10000, 333), 333);
    assert_eq!(proportional_share(3, 3333), 0);
    assert_eq!(proportional_share(u64::MAX, 10000), u64::MAX);
    assert_eq!(proportional_share(u64::MAX, 5000), u64::MAX / 2);
    assert_eq!(BASIS_POINTS_DENOMINATOR, 10000);
}

#[test]
fn split_of_rounding_example() {
    let s = compute_split(10000, 333, 0, false).unwrap();
    assert_eq!(s.fee_amount, 333);
    assert_eq!(s.referrer_amount, 0);
    assert_eq!(s.merchant_amount, 9667);
}

#[test]
fn split_ignores_referrer_share_without_referrer() {
    let s = compute_split(1000, 100, 500, false).unwrap();
    assert_eq!(s.referrer_amount, 0);
    assert_eq!(s.fee_amount, 10);
    assert_eq!(s.merchant_amount, 990);
}

#[test]
fn split_conserves_over_many_inputs() {
    for amount in [1u64, 2, 7, 99, 10000, 123456789, u64::MAX] {
        for (fee, referrer) in [(0u16, 0u16), (1, 9999), (333, 667), (5000, 5000), (10000, 0), (0, 10000)] {
            let s = compute_split(amount, fee, referrer, true).unwrap();
            assert_eq!(
                s.merchant_amount as u128 + s.referrer_amount as u128 + s.fee_amount as u128,
                amount as u128
            );
        }
    }
}

#[test]
fn overlapping_shares_are_an_invalid_settlement() {
    assert_eq!(compute_split(100, 6000, 5000, true).unwrap_err(), VaultError::InvalidSettlement);
    assert!(compute_split(1, 6000, 5000, true).is_ok());
}
