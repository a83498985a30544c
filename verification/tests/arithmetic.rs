use staking_contract::pricing::{
    check_lock_weight, effective_stake_for_share_exit, effective_stake_yocto, min_locked_yocto_for_duration,
    mul_div_floor, mul_div_floor_checked, mul_div_floor_rem, required_near_months, saturating_mul_u128,
    AVG_MONTH_NS, LOCK_FACTOR_DENOM,
};
use staking_contract::u256::{div_rem, mul_u128, wide_mul, U256};

#[test]
fn wide_products_and_division_are_exact() {
    let p = wide_mul(u128::MAX, u128::MAX);
    assert!(!p.fits_u128());
    let (q, r) = div_rem(p, u128::MAX);
    assert!(q.fits_u128());
    assert_eq!(q.as_u128(), u128::MAX);
    assert_eq!(r, 0);

    let (q2, r2) = div_rem(wide_mul(10, 7), 4);
    assert_eq!((q2.as_u128(), r2), (17, 2));
    let tripled = mul_u128(wide_mul(1u128 << 100, 1u128 << 20), 3);
    let (q3, r3) = div_rem(tripled, 1u128 << 60);
    assert_eq!((q3.as_u128(), r3), (3u128 << 60, 0));
    assert!(U256::from_u128(0).is_zero());
    assert!(U256::from_u128(5).ge(&U256::from_u128(4)));
    assert!(!U256::from_u128(4).ge(&U256::from_u128(5)));
}

#[test]
fn floor_mul_div_goes_through_the_wide_product() {
    assert_eq!(mul_div_floor(u128::MAX, 3, 6), u128::MAX / 2);
    assert_eq!(mul_div_floor(10, 10, 3), 33);
    assert_eq!(mul_div_floor_checked(u128::MAX, 3, 2), None);
    assert_eq!(mul_div_floor_checked(u128::MAX, 2, 2), Some(u128::MAX));
    assert_eq!(mul_div_floor_rem(10, 10, 3), (33, true));
    assert_eq!(mul_div_floor_rem(10, 9, 3), (30, false));
    assert_eq!(saturating_mul_u128(u128::MAX, 2), u128::MAX);
    assert_eq!(saturating_mul_u128(6, 7), 42);
}

#[test]
fn effective_stake_subtracts_what_is_leaving() {
    assert_eq!(effective_stake_yocto(100, 20), 120);
    assert_eq!(effective_stake_yocto(u128::MAX, 1), u128::MAX);
    assert_eq!(effective_stake_for_share_exit(100, 20, 30), 90);
    assert_eq!(effective_stake_for_share_exit(10, 0, 30), 0);
}

#[test]
fn lock_weight_needs_enough_near_months() {
    // Price of 2 units with factor 3 (scaled) needs 6 NEAR-months.
    let need = required_near_months(2, 3 * LOCK_FACTOR_DENOM);
    assert_eq!(need, 6);
    let one_month = AVG_MONTH_NS as u128;
    assert_eq!(min_locked_yocto_for_duration(2, 3 * LOCK_FACTOR_DENOM, one_month), 6);
    assert_eq!(min_locked_yocto_for_duration(2, 3 * LOCK_FACTOR_DENOM, 2 * one_month), 3);
    assert!(check_lock_weight(2, 3 * LOCK_FACTOR_DENOM, 6, one_month).is_ok());
    assert!(check_lock_weight(2, 3 * LOCK_FACTOR_DENOM, 5, one_month).is_err());
    assert!(check_lock_weight(2, 3 * LOCK_FACTOR_DENOM, 3, 2 * one_month).is_ok());
}
