use staking_contract::cli::{check_deploy_target, deploy_owner, deploy_wasm};
use staking_contract::cli::{
    deploy_mode, guard_mainnet, non_empty, shell_quote, CliError, DeployMode, Network,
};
use staking_contract::errors::ContractError;
use staking_contract::governance::require_min_lock_amount_at_protocol_floor;
use staking_contract::ids::{
    base62_from_hash, next_lock_id, next_price_id, next_product_id, next_purchase_id,
    next_subscription_id,
};
use staking_contract::lock::{commit_catalog_lock, lock_path, LockPath};
use staking_contract::oracle::{parse_u128, validate_oracle_price_data, OraclePriceData};
use staking_contract::pricing::{AVG_MONTH_NS, PROTOCOL_MIN_LOCK_AMOUNT_YOCTO};
use staking_contract::storage::{
    required_storage_deposit_yocto, storage_deposit, storage_withdraw, StorageCounts,
};
use staking_contract::subscriptions::{
    add_months_stripe_style, anchor_day_from_timestamp, build_subscription_update_decision,
    count_after_decrement, count_after_increment, projected_subscription_window_from,
    subscription_update_kind, SubscriptionUpdateKind,
};
use staking_contract::types::{
    Account, CatalogStatus, Config, LockStatus, OrderRef, PendingSubscriptionUpdate, Price,
    PriceType, Product, Subscription, SubscriptionStatus, BillingPeriod,
};
use staking_contract::validators::{internal_stake, internal_unstake};
use staking_contract::types::Validator;

const NEAR: u128 = 1_000_000_000_000_000_000_000_000;

fn config() -> Config {
    Config {
        owner_account_id: "owner.near".to_string(),
        proposed_new_owner_account_id: None,
        guardians: vec!["guard.near".to_string()],
        min_lock_duration_ns: 10,
        max_lock_duration_ns: 1_000,
        epoch_unstake_settle_epochs: 4,
        min_storage_deposit: 100,
        per_lock_storage_stake: 10,
        per_farm_position_storage_stake: 20,
        per_purchase_storage_stake: 30,
        min_lock_amount: NEAR,
    }
}

fn recurring_price(id: &str, product: &str, amount: u128) -> Price {
    Price::new(
        id.to_string(),
        product.to_string(),
        "tier".to_string(),
        String::new(),
        amount,
        PriceType::Recurring,
        Some(BillingPeriod::Monthly),
        0,
        None,
    )
}

fn subscription(end_ns: u64) -> Subscription {
    Subscription {
        subscription_id: "sub_1".to_string(),
        account_id: "alice.near".to_string(),
        product_id: "prod_a".to_string(),
        price_id: "price_a".to_string(),
        start_ns: 0,
        end_ns,
        anchor_day: 1,
        last_lock_id: "lock_1".to_string(),
        status: SubscriptionStatus::Active,
        cancel_at_period_end: false,
        pending_update: None,
    }
}

#[test]
fn ids_are_base62_sha256_suffixes() {
    let who = "alice.near".to_string();
    let mut nonce = 0u64;
    assert_eq!(next_product_id(&mut nonce, 7, 1000, &who), "prod_LGVPkwf89sJ21N");
    assert_eq!(nonce, 1);
    assert_eq!(next_price_id(&mut nonce, 7, 1000, &who), "price_863vJwxNdaMTtWMH0M9Q36Qa");
    assert_eq!(next_subscription_id(&mut nonce, 7, 1000, &who), "sub_ewek0kPW4lbSMF9xQ");
    assert_eq!(next_lock_id(&mut nonce, 7, 1000, &who), "lock_5c0qFrGJbQbfSF4fz");
    assert_eq!(next_purchase_id(&mut nonce, 7, 1000, &who), "pay_VAhWIbE1m38Vf45Vz");
    assert_eq!(nonce, 5);
    let mut top = u64::MAX;
    let _ = next_lock_id(&mut top, 7, 1000, &who);
    assert_eq!(top, u64::MAX);
}

#[test]
fn base62_rehashes_past_digest_length() {
    let hash: Vec<u8> = vec![
        186, 120, 22, 191, 143, 1, 207, 234, 65, 65, 64, 222, 93, 174, 34, 35, 176, 3, 97, 163,
        150, 23, 122, 156, 180, 16, 255, 97, 242, 0, 21, 173,
    ];
    assert_eq!(base62_from_hash(&hash, 40), "0wM5J1Lm332aVoYZq3ZdQNyWuG7Zu0LnHF48jPqV");
}

#[test]
fn months_add_linearly_and_saturate() {
    assert_eq!(add_months_stripe_style(1, 1, 0), AVG_MONTH_NS as u64);
    assert_eq!(add_months_stripe_style(40, 0, 5), 5);
    assert_eq!(add_months_stripe_style(1, u32::MAX, 1), u64::MAX);
    assert_eq!(add_months_stripe_style(1, 1, u64::MAX - 1), u64::MAX);
}

#[test]
fn anchor_day_cycles_through_31() {
    let day = 86_400_000_000_000u64;
    assert_eq!(anchor_day_from_timestamp(0), 1);
    assert_eq!(anchor_day_from_timestamp(30 * day), 31);
    assert_eq!(anchor_day_from_timestamp(31 * day), 1);
}

#[test]
fn projected_window_holds_now() {
    let m = AVG_MONTH_NS as u64;
    assert_eq!(projected_subscription_window_from(1, 0, 2 * m + 5), (2 * m, 3 * m));
    assert_eq!(projected_subscription_window_from(1, 0, 0), (0, m));
    assert_eq!(projected_subscription_window_from(1, 100, 3), (100, 100 + m));
}

#[test]
fn projection_applies_due_plan_change() {
    let m = AVG_MONTH_NS as u64;
    let mut sub = subscription(m);
    sub.pending_update = Some(PendingSubscriptionUpdate {
        target_price_id: Some("price_b".to_string()),
        target_amount: None,
        apply_ns: m,
    });
    let target = recurring_price("price_b", "prod_b", 1);
    let view = staking_contract::subscriptions::project_subscription_view_now(sub, m + 1, Some(&target));
    assert_eq!(view.product_id, "prod_b");
    assert_eq!(view.price_id, "price_b");
    assert!(view.pending_update.is_none());
    assert_eq!((view.start_ns, view.end_ns), (m, 2 * m));
}

#[test]
fn update_decisions_follow_the_table() {
    let sub = subscription(1_000);
    let cur = recurring_price("price_a", "prod_a", 10);
    let dear = recurring_price("price_b", "prod_a", 20);
    let cheap = recurring_price("price_c", "prod_a", 5);
    let same = "price_a".to_string();

    let up = build_subscription_update_decision(&sub, &cur, &cur, 50, 100, &same, 80).unwrap();
    assert_eq!(up.immediate_stake_increase, Some(30));
    assert!(up.pending_apply_ns.is_none());
    assert_eq!(subscription_update_kind(&up), SubscriptionUpdateKind::ChangedImmediately);

    let down = build_subscription_update_decision(&sub, &cur, &cur, 50, 100, &same, 20).unwrap();
    assert_eq!(down.pending_stake_decrease_target, Some(20));
    assert_eq!(down.pending_apply_ns, Some(1_000));
    assert_eq!(subscription_update_kind(&down), SubscriptionUpdateKind::ScheduledForPeriodEnd);

    let upgrade = build_subscription_update_decision(&sub, &cur, &dear, 50, 100, &"price_b".to_string(), 50).unwrap();
    assert!(upgrade.immediate_plan_change && !upgrade.pending_plan_change);

    let downgrade = build_subscription_update_decision(&sub, &cur, &cheap, 50, 100, &"price_c".to_string(), 50).unwrap();
    assert!(!downgrade.immediate_plan_change && downgrade.pending_plan_change);
    assert_eq!(downgrade.pending_apply_ns, Some(1_000));

    let none = build_subscription_update_decision(&sub, &cur, &cur, 50, 100, &same, 50).unwrap();
    assert_eq!(subscription_update_kind(&none), SubscriptionUpdateKind::NoOp);
    assert_eq!(SubscriptionUpdateKind::NoOp.as_str(), "no_op");
}

#[test]
fn update_refused_when_lock_weight_fails() {
    let sub = subscription(1_000);
    let mut heavy = recurring_price("price_a", "prod_a", NEAR);
    heavy.lock_factor_near_months = NEAR;
    let r = build_subscription_update_decision(&sub, &heavy, &heavy, NEAR, 999, &"price_a".to_string(), 2 * NEAR);
    assert_eq!(r, Err(ContractError::LockTooSmall));
}

#[test]
fn cancel_and_resume_rules() {
    let mut sub = subscription(1_000);
    assert_eq!(
        staking_contract::subscriptions::resume_subscription(&mut sub, 10),
        Err(ContractError::NotCancelling)
    );
    assert!(staking_contract::subscriptions::cancel_subscription(&mut sub).is_ok());
    assert!(sub.cancel_at_period_end);
    assert_eq!(
        staking_contract::subscriptions::resume_subscription(&mut sub, 1_000),
        Err(ContractError::PeriodEnded)
    );
    assert!(staking_contract::subscriptions::resume_subscription(&mut sub, 999).is_ok());
    assert!(!sub.cancel_at_period_end);
    sub.status = SubscriptionStatus::Expired;
    assert_eq!(
        staking_contract::subscriptions::cancel_subscription(&mut sub),
        Err(ContractError::SubscriptionNotActive)
    );
}

#[test]
fn reference_counts_saturate_and_drop() {
    assert_eq!(count_after_increment(None), 1);
    assert_eq!(count_after_increment(Some(u32::MAX)), u32::MAX);
    assert_eq!(count_after_decrement(Some(1)), Some(None));
    assert_eq!(count_after_decrement(Some(3)), Some(Some(2)));
    assert_eq!(count_after_decrement(None), None);
}

#[test]
fn storage_requirement_and_deposit() {
    let cfg = config();
    let counts = StorageCounts { locks: 2, purchases: 1, farm_positions: 0 };
    assert_eq!(required_storage_deposit_yocto(&cfg, &counts, 1, 0, 1), 100 + 30 + 30 + 20);
    let (acct, refund) = storage_deposit(false, 250, None, 100, true).unwrap();
    assert_eq!((acct.storage_deposit, refund), (100, 150));
    assert_eq!(storage_deposit(false, 0, None, 100, false), Err(ContractError::StorageAttachRequired));
    assert_eq!(storage_deposit(false, 50, None, 100, false), Err(ContractError::StorageBelowMinimum));
    assert_eq!(storage_deposit(true, 50, None, 100, false), Err(ContractError::Paused));
    let a = Account { storage_deposit: 200 };
    assert_eq!(storage_withdraw(1, false, Some(&a), 60, Some(70)), Err(ContractError::StorageWithdrawTooLarge));
    assert_eq!(storage_withdraw(0, false, Some(&a), 60, None), Err(ContractError::OneYoctoRequired));
    assert_eq!(storage_withdraw(1, false, None, 60, None), Err(ContractError::AccountNotRegistered));
    let (left, sent) = storage_withdraw(1, false, Some(&a), 60, None).unwrap();
    assert_eq!((left.storage_deposit, sent), (140, 60));
}

#[test]
fn governance_floor_and_ownership() {
    assert!(require_min_lock_amount_at_protocol_floor(PROTOCOL_MIN_LOCK_AMOUNT_YOCTO).is_ok());
    assert_eq!(
        require_min_lock_amount_at_protocol_floor(PROTOCOL_MIN_LOCK_AMOUNT_YOCTO - 1),
        Err(ContractError::MinLockAmountBelowProtocolFloor)
    );
    let mut cfg = config();
    let owner = "owner.near".to_string();
    let heir = "heir.near".to_string();
    assert_eq!(cfg.accept_ownership(1, &heir), Err(ContractError::NotProposedOwner));
    assert_eq!(cfg.propose_new_owner_account_id(1, &heir, Some(heir.clone())), Err(ContractError::NotOwner));
    assert!(cfg.propose_new_owner_account_id(1, &owner, Some(heir.clone())).is_ok());
    assert!(cfg.accept_ownership(1, &heir).is_ok());
    assert_eq!(cfg.owner_account_id, heir);
    assert!(cfg.proposed_new_owner_account_id.is_none());
    assert_eq!(cfg.set_min_lock_amount(1, &heir, 5), Err(ContractError::MinLockAmountBelowProtocolFloor));
    assert_eq!(cfg.set_min_lock_amount(1, &owner, 2 * NEAR), Err(ContractError::NotOwner));
}

#[test]
fn lock_paths_by_price_type() {
    assert_eq!(lock_path(PriceType::OneOff, Some(5)), Ok(LockPath::OneOff { duration_ns: 5 }));
    assert_eq!(lock_path(PriceType::OneOff, None), Err(ContractError::DurationRequired));
    assert_eq!(lock_path(PriceType::Recurring, Some(5)), Err(ContractError::DurationForbidden));
    assert_eq!(lock_path(PriceType::Farm, None), Err(ContractError::FarmPriceNeedsStake));
}

#[test]
fn first_catalog_lock_mints_one_share_per_yocto() {
    let price = Price::new(
        "price_a".to_string(),
        "prod_a".to_string(),
        String::new(),
        String::new(),
        1,
        PriceType::OneOff,
        None,
        0,
        None,
    );
    let product = Product::new(
        "prod_a".to_string(),
        "pool.near".to_string(),
        String::new(),
        String::new(),
        0,
    );
    let mut v = Validator::new("pool.near".to_string(), 0);
    let mut nonce = 3u64;
    let who = "alice.near".to_string();
    let order = OrderRef::ProductPurchase {
        product_id: "prod_a".to_string(),
        price_id: "price_a".to_string(),
    };
    let c = commit_catalog_lock(
        &who, 5 * NEAR, 500, order, &"pool.near".to_string(), Some(price), Some(product),
        &mut v, 0, 0, None, &mut nonce, 7, 1000, &who,
    )
    .unwrap();
    assert_eq!(c.lock.shares, 5 * NEAR);
    assert_eq!(c.lock.lock_id, "lock_5c0qFrGJbQbfSF4fz");
    assert_eq!((c.lock.start_ns, c.lock.end_ns), (1000, 1500));
    assert_eq!(c.lock.status, LockStatus::Active);
    assert_eq!(c.price.usage_count, 1);
    assert_eq!(c.product.usage_count, 1);
    assert_eq!(c.user_lock_count, 1);
    assert_eq!(v.total_shares, 5 * NEAR);
    assert_eq!(v.pending_to_stake, 5 * NEAR);
    assert_eq!(nonce, 4);
}

#[test]
fn lock_refused_on_other_pool() {
    let price = Price::new("p".to_string(), "q".to_string(), String::new(), String::new(), 1, PriceType::OneOff, None, 0, None);
    let product = Product::new("q".to_string(), "pool.near".to_string(), String::new(), String::new(), 0);
    let mut v = Validator::new("other.near".to_string(), 0);
    let mut nonce = 0u64;
    let who = "alice.near".to_string();
    let order = OrderRef::ProductPurchase { product_id: "q".to_string(), price_id: "p".to_string() };
    let r = commit_catalog_lock(
        &who, NEAR, 5, order, &"other.near".to_string(), Some(price), Some(product), &mut v, 0,
        0, None, &mut nonce, 1, 1, &who,
    );
    assert_eq!(r.err(), Some(ContractError::CatalogValidatorMismatch));
    assert_eq!(nonce, 0);
}

#[test]
fn stake_then_unstake_round_trip() {
    let mut v = Validator::new("pool.near".to_string(), 0);
    let (minted, user) = internal_stake(&mut v, 0, 1_000).unwrap();
    assert_eq!((minted, user), (1_000, 1_000));
    v.total_staked_balance = 1_000;
    v.pending_to_stake = 0;
    let mut tranches = Vec::new();
    let who = "alice.near".to_string();
    let (near, left) = internal_unstake(&mut v, user, &mut tranches, &who, 400, 10, 4).unwrap();
    assert_eq!((near, left), (400, 600));
    assert_eq!(tranches.len(), 1);
    assert_eq!(tranches[0].available_epoch_height, 14);
    assert_eq!(v.pending_to_unstake, 400);
    assert_eq!(v.accounts_with_pending_unstake, vec![who.clone()]);
    assert_eq!(
        internal_unstake(&mut v, 600, &mut tranches, &who, 0, 10, 4),
        Err(ContractError::ZeroSharesToExit)
    );
}

#[test]
fn oracle_quote_checks_and_decimal_parsing() {
    let data = OraclePriceData { timestamp: 100, recency_duration_sec: 0, prices: vec![] };
    assert_eq!(validate_oracle_price_data(&data, 99, 10), Err(ContractError::OracleFromFuture));
    assert_eq!(validate_oracle_price_data(&data, 111, 10), Err(ContractError::OracleStale));
    assert!(validate_oracle_price_data(&data, 110, 10).is_ok());
    assert_eq!(parse_u128("12345"), Some(12345));
    assert_eq!(parse_u128("+7"), Some(7));
    assert_eq!(parse_u128(""), None);
    assert_eq!(parse_u128("+"), None);
    assert_eq!(parse_u128("12a"), None);
    assert_eq!(parse_u128("340282366920938463463374607431768211455"), Some(u128::MAX));
    assert_eq!(parse_u128("340282366920938463463374607431768211456"), None);
}

#[test]
fn command_line_decisions() {
    assert_eq!(Network::Testnet.as_near_network(), "testnet");
    assert_eq!(Network::Mainnet.as_near_network(), "mainnet");
    assert_eq!(deploy_mode(true, false), Ok(DeployMode::Fresh));
    assert_eq!(deploy_mode(false, true), Ok(DeployMode::CodeOnly));
    assert_eq!(deploy_mode(false, false), Err(CliError::NoDeployMode));
    assert_eq!(deploy_mode(true, true), Err(CliError::ConflictingDeployModes));
    assert_eq!(guard_mainnet(true, Network::Mainnet, false), Err(CliError::MainnetNeedsConfirmation));
    assert!(guard_mainnet(true, Network::Mainnet, true).is_ok());
    assert!(guard_mainnet(false, Network::Mainnet, false).is_ok());
    assert_eq!(shell_quote("near"), "near");
    assert_eq!(shell_quote("a b"), "'a b'");
    assert_eq!(shell_quote("it's"), "'it'\\''s'");
    assert_eq!(non_empty(Some("  x y \t")), Some("x y"));
    assert_eq!(non_empty(Some("   ")), None);
    assert_eq!(non_empty(None), None);
    assert!(!staking_contract::cli::is_missing_contract_view_error("timeout"));
    assert!(staking_contract::cli::is_missing_contract_view_error("Account Foo Does Not Exist"));
}

#[test]
fn catalog_status_is_active_on_creation() {
    let p = Product::new("p".to_string(), "v".to_string(), String::new(), String::new(), 3);
    assert_eq!(p.status, CatalogStatus::Active);
    assert_eq!(p.created_ns, 3);
}

#[test]
fn artifact_hash_is_lower_hex_sha256() {
    assert_eq!(
        staking_contract::cli::wasm_sha256(b"abc"),
        "ba7816bf8f01cfea414140de5dae2223b00361a396177a9cb410ff61f20015ad"
    );
}

#[test]
fn months_stack_additively_and_saturate() {
    let once = add_months_stripe_style(15, 1, 100);
    assert_eq!(add_months_stripe_style(15, 1, once), add_months_stripe_style(15, 2, 100));
    assert_eq!(add_months_stripe_style(15, 3, 100), 100 + 3 * AVG_MONTH_NS as u64);
    let late = u64::MAX - 5;
    assert_eq!(add_months_stripe_style(1, 1, late), u64::MAX);
    assert_eq!(add_months_stripe_style(1, 1, add_months_stripe_style(1, 1, late)), add_months_stripe_style(1, 2, late));
}

#[test]
fn deploy_targets_and_owner_defaults() {
    assert_eq!(check_deploy_target(true, Network::Mainnet, None, "acc.near"), Err(CliError::TestFeatureOnMainnet));
    assert_eq!(check_deploy_target(true, Network::Testnet, None, "acc.testnet"), Ok(()));
    assert_eq!(
        check_deploy_target(false, Network::Testnet, Some("other.testnet"), "acc.testnet"),
        Err(CliError::DeploySignerMismatch)
    );
    assert_eq!(check_deploy_target(false, Network::Mainnet, Some("acc.near"), "acc.near"), Ok(()));
    assert_eq!(CliError::TestFeatureOnMainnet.message(), "test-feature deployments are not allowed on mainnet");
    assert_eq!(deploy_owner(None, Some("cfg.near".to_string()), "acc.near".to_string()), "cfg.near");
    assert_eq!(deploy_owner(Some("flag.near".to_string()), Some("cfg.near".to_string()), "acc.near".to_string()), "flag.near");
    assert_eq!(deploy_owner(None, None, "acc.near".to_string()), "acc.near");
}

#[test]
fn deploy_wasm_prefers_flag_then_config_then_default() {
    assert_eq!(
        deploy_wasm(Some("w.wasm".to_string()), true, Some("t.wasm".to_string()), Some("n.wasm".to_string())),
        "w.wasm"
    );
    assert_eq!(deploy_wasm(None, true, Some("t.wasm".to_string()), Some("n.wasm".to_string())), "t.wasm");
    assert_eq!(deploy_wasm(None, false, Some("t.wasm".to_string()), Some("n.wasm".to_string())), "n.wasm");
    assert_eq!(deploy_wasm(None, true, None, Some("n.wasm".to_string())), "res/local/staking_contract_test.wasm");
    assert_eq!(deploy_wasm(None, false, Some("t.wasm".to_string()), None), "res/local/staking_contract.wasm");
}

fn subscription_lock(amount: u128) -> staking_contract::types::Lock {
    staking_contract::types::Lock {
        lock_id: "lock_1".to_string(),
        account_id: "alice.near".to_string(),
        validator_id: "pool.near".to_string(),
        amount_near: amount,
        shares: amount,
        start_ns: 0,
        end_ns: 1_000,
        order: OrderRef::Subscription {
            subscription_id: "sub_1".to_string(),
            price_id: "price_a".to_string(),
            period_start_ns: 0,
            period_end_ns: 1_000,
        },
        status: LockStatus::Active,
    }
}

#[test]
fn stake_increase_of_a_subscription_commits_lock_and_pool() {
    let mut sub = subscription(1_000);
    let cur = recurring_price("price_a", "prod_a", 10);
    let mut target = recurring_price("price_a", "prod_a", 10);
    let mut product = Product::new("prod_a".to_string(), "pool.near".to_string(), "P".to_string(), String::new(), 0);
    let mut lock = subscription_lock(50);
    let mut v = Validator::new("pool.near".to_string(), 0);
    let (_, shares) = staking_contract::subscriptions::commit_subscription_update(
        30, 1, &"price_a".to_string(), 80, &mut sub, &cur, &mut target, &mut product, &mut lock, &mut v, 50, 100,
    )
    .unwrap();
    assert_eq!((lock.amount_near, lock.shares), (80, 80));
    assert_eq!((v.total_shares, v.pending_to_stake), (30, 30));
    assert_eq!(shares, 80);
}

#[test]
fn refused_stake_increase_changes_nothing() {
    let mut sub = subscription(1_000);
    let cur = recurring_price("price_a", "prod_a", 10);
    let mut target = recurring_price("price_a", "prod_a", 10);
    let mut product = Product::new("prod_a".to_string(), "pool.near".to_string(), "P".to_string(), String::new(), 0);
    let mut lock = subscription_lock(50);
    // Shares are issued but nothing backs them: the increase cannot mint.
    let mut v = Validator::new("pool.near".to_string(), 0);
    v.total_shares = 100;
    let r = staking_contract::subscriptions::commit_subscription_update(
        30, 1, &"price_a".to_string(), 80, &mut sub, &cur, &mut target, &mut product, &mut lock, &mut v, 50, 100,
    );
    assert_eq!(r.err(), Some(ContractError::NoEffectiveStakeForMint));
    assert_eq!((lock.amount_near, lock.shares), (50, 50));
    assert_eq!((v.total_shares, v.pending_to_stake), (100, 0));
    assert_eq!((sub.price_id.as_str(), sub.end_ns), ("price_a", 1_000));
    assert_eq!(target.usage_count, 0);
}

#[test]
fn no_due_update_leaves_everything_in_place() {
    let mut sub = subscription(1_000);
    let mut target: Option<Price> = None;
    let mut product: Option<Product> = None;
    let mut lock = Some(subscription_lock(50));
    let mut v = Some(Validator::new("pool.near".to_string(), 0));
    let mut tranches = vec![staking_contract::types::PendingUnstakeTranche { amount: 7, available_epoch_height: 3 }];
    let (applied, dec, _) = staking_contract::subscriptions::apply_due_subscription_update(
        &mut sub, 500, &mut target, &mut product, &mut lock, &mut v, 50, &mut tranches, 1, 4,
    )
    .unwrap();
    assert!(!applied);
    assert!(dec.is_none());
    assert_eq!(tranches, vec![staking_contract::types::PendingUnstakeTranche { amount: 7, available_epoch_height: 3 }]);
    assert_eq!(lock.unwrap().amount_near, 50);
    assert_eq!(sub.end_ns, 1_000);
}
