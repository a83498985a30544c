use staking_contract::catalog::resolve_price_id_for_lock;
use staking_contract::cli::{catalog_signer, is_missing_contract_view_error};
use staking_contract::farm::{farm_delta_reward_units, farm_shares_for_amount_ceil, NS_PER_SECOND, YOCTO_PER_NEAR};
use staking_contract::pricing::{mint_shares, near_from_shares, withdraw_batch_credit_yocto, AVG_MONTH_NS, LOCK_FACTOR_DENOM};
use staking_contract::subscriptions::add_months_stripe_style;
use staking_contract::types::{BillingPeriod, Config, Price, PriceType};
use staking_contract::versions::VConfig;

#[test]
fn missing_contract_detection_recognizes_code_does_not_exist() {
    let err = anyhow::Error::msg(
        "near view failed for get_owner_id: CompilationError(CodeDoesNotExist { account_id: \"pool.testnet\" })",
    );

    assert!(is_missing_contract_view_error(&err.to_string()));
}

#[test]
fn explicit_catalog_signer_takes_precedence() {
    let explicit = Some("manager.testnet");
    let product_owner = Some("pool-owner.testnet");
    let ctx_signer = "config-signer.testnet";

    assert_eq!(catalog_signer(explicit, product_owner, ctx_signer), "manager.testnet");
}

#[test]
fn linear_month_stack() {
    let out = add_months_stripe_style(15, 2, 100);
    assert_eq!(out, 100 + (2u128 * AVG_MONTH_NS) as u64);
}

#[test]
fn internal_mint_first_deposit_one_to_one() {
    assert_eq!(
        mint_shares(0, 0, 1_000_000_000_000_000_000_000_000),
        1_000_000_000_000_000_000_000_000
    );
}

#[test]
fn internal_mint_pro_rata() {
    let s = mint_shares(2_000, 4_000, 1_000);
    assert_eq!(s, 500);
}

fn sequential_exit_total() -> (u128, u128) {
    let gross = 100u128;
    let ts0 = 100u128;
    let sh = 50u128;
    let user_liab0 = 0u128;
    let eff1 = gross.saturating_sub(user_liab0);
    let n1 = near_from_shares(sh, eff1, ts0);
    let user_liab1 = user_liab0.saturating_add(n1);
    let ts1 = ts0.saturating_sub(sh);
    let eff2 = gross.saturating_sub(user_liab1);
    let n2 = near_from_shares(sh, eff2, ts1);
    (n1.saturating_add(n2), gross)
}

#[test]
fn internal_sequential_share_exit_net_effective_totals_to_gross() {
    let (total, gross) = sequential_exit_total();
    assert_eq!(total, gross);
}

fn boundary_price() -> Price {
    Price::new(
        "price_x".to_string(),
        "prod_x".to_string(),
        String::new(),
        String::new(),
        100,
        PriceType::Recurring,
        Some(BillingPeriod::Monthly),
        LOCK_FACTOR_DENOM,
        None,
    )
}

fn check_min_locked_boundary() {
    let price = boundary_price();
    let d: u128 = 1_000_000_000_000;
    let m = price.min_locked_yocto_for_duration(d);
    assert!(price.check_near_price_lock(m, d).is_ok());
    assert!(m > 0);
    if m > 1 {
        assert!(price.check_near_price_lock(m - 1, d).is_err());
    }
}

#[test]
fn internal_min_locked_matches_price_check_boundary() {
    check_min_locked_boundary();
}

#[test]
fn withdraw_batch_credit_pro_rata_rounding() {
    assert_eq!(withdraw_batch_credit_yocto(100, 30, 100), 30);
}

#[test]
fn withdraw_batch_credit_tiny_bucket_dust_minimum() {
    assert_eq!(withdraw_batch_credit_yocto(1, 1, 2), 1);
}

#[test]
fn withdraw_batch_credit_large_product_uses_u256() {
    let w_y: u128 = 1u128 << 64;
    let o_y: u128 = 1u128 << 64;
    let t_y: u128 = 1u128 << 64;
    assert!(
        w_y.checked_mul(o_y).is_none(),
        "sanity: product overflows u128; math must use U256"
    );
    assert_eq!(withdraw_batch_credit_yocto(w_y, o_y, t_y), 1u128 << 64);
}

#[test]
fn withdraw_batch_credit_zero_when_any_operand_zero() {
    assert_eq!(withdraw_batch_credit_yocto(0, 1, 1), 0);
    assert_eq!(withdraw_batch_credit_yocto(1, 0, 1), 0);
    assert_eq!(withdraw_batch_credit_yocto(1, 1, 0), 0);
}

#[test]
fn reward_rate_example_matches_spec() {
    let reward = farm_delta_reward_units(
        100 * YOCTO_PER_NEAR,
        6 * 86_400 * NS_PER_SECOND,
        3_858_024_691_358_024,
    );
    assert_eq!(reward, 199_999_999_999_999_964_160_000);
}

#[test]
fn shares_for_partial_unstake_round_up() {
    assert_eq!(farm_shares_for_amount_ceil(4, 10, 11, 10), 4);
}

#[test]
fn vconfig_v0_roundtrip() {
    let owner = "owner.near".to_string();
    let cfg = Config {
        owner_account_id: owner.clone(),
        proposed_new_owner_account_id: None,
        guardians: vec![],
        min_lock_duration_ns: 1,
        max_lock_duration_ns: 2,
        epoch_unstake_settle_epochs: 4,
        min_storage_deposit: YOCTO_PER_NEAR,
        per_lock_storage_stake: 0,
        per_farm_position_storage_stake: 0,
        per_purchase_storage_stake: 0,
        min_lock_amount: YOCTO_PER_NEAR,
    };
    let v: VConfig = cfg.into();
    let back: Config = v.into();
    assert_eq!(back.owner_account_id, owner);
}

#[test]
fn utils_mint_first_deposit_one_to_one() {
    assert_eq!(
        mint_shares(0, 0, 1_000_000_000_000_000_000_000_000),
        1_000_000_000_000_000_000_000_000
    );
}

#[test]
fn utils_mint_pro_rata() {
    let s = mint_shares(2_000, 4_000, 1_000);
    assert_eq!(s, 500);
}

#[test]
fn utils_sequential_share_exit_net_effective_totals_to_gross() {
    let (total, gross) = sequential_exit_total();
    assert_eq!(total, gross);
}

#[test]
fn utils_min_locked_matches_price_check_boundary() {
    check_min_locked_boundary();
}

#[test]
fn resolve_price_id_needs_exactly_one_identifier() {
    assert_eq!(
        resolve_price_id_for_lock(None, None, None, None),
        Err(staking_contract::errors::ContractError::NeitherPriceNorProduct)
    );
}
