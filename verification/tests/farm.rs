use staking_contract::errors::ContractError;
use staking_contract::farm::{
    commit_farm_unstake, farm_shares_for_amount_ceil, check_stake, check_stake_entry, check_unstake_entry, farm_position_accumulated, preview_farm_position_pending, require_active_farm_position, settle_farm_pool,
    settle_farm_position, simulate_settled_farm_pool, YOCTO_PER_NEAR,
};
use staking_contract::types::{
    Account, Config, FarmPool, FarmPosition, FarmStatus, Price, PriceType, Product, TransactionStatus, Validator,
};

fn validator_with_stake(total_shares: u128, staked: u128) -> Validator {
    let mut v = Validator::new("pool.near".to_string(), 0);
    v.total_shares = total_shares;
    v.total_staked_balance = staked;
    v
}

fn pool(total_farm_shares: u128, reward_rate: u128) -> FarmPool {
    FarmPool {
        price_id: "farm".to_string(),
        product_id: "prod".to_string(),
        reward_rate,
        total_farm_shares,
        acc_reward_per_share: 0,
        last_reward_settle_ns: 1_000_000_000,
    }
}

fn pool_copy(p: &FarmPool) -> FarmPool {
    FarmPool {
        price_id: p.price_id.clone(),
        product_id: p.product_id.clone(),
        reward_rate: p.reward_rate,
        total_farm_shares: p.total_farm_shares,
        acc_reward_per_share: p.acc_reward_per_share,
        last_reward_settle_ns: p.last_reward_settle_ns,
    }
}

fn position(shares: u128) -> FarmPosition {
    FarmPosition {
        account_id: "alice.near".to_string(),
        product_id: "prod".to_string(),
        price_id: "farm".to_string(),
        validator_id: "pool.near".to_string(),
        shares,
        reward_debt: 0,
        accrued_reward_units: 0,
        status: FarmStatus::Active,
        created_ns: 0,
        updated_ns: 0,
    }
}

#[test]
fn pool_settlement_spreads_rewards_over_farm_shares() {
    // 100 NEAR behind 100 shares, all of them farming, 1000 units per NEAR-second, 2 seconds.
    let v = validator_with_stake(100, 100 * YOCTO_PER_NEAR);
    let mut p = pool(100, 1_000);
    settle_farm_pool(&mut p, &v, 3_000_000_000);
    assert_eq!(p.acc_reward_per_share, 2_000 * YOCTO_PER_NEAR);
    assert_eq!(p.last_reward_settle_ns, 3_000_000_000);

    // Settling again at the same time changes nothing.
    let again = simulate_settled_farm_pool(pool_copy(&p), &v, 3_000_000_000);
    assert_eq!(again.acc_reward_per_share, p.acc_reward_per_share);
    assert_eq!(again.last_reward_settle_ns, p.last_reward_settle_ns);

    // An empty pool only moves its clock.
    let mut empty = pool(0, 1_000);
    settle_farm_pool(&mut empty, &v, 5_000_000_000);
    assert_eq!((empty.acc_reward_per_share, empty.last_reward_settle_ns), (0, 5_000_000_000));
}

#[test]
fn position_settlement_books_its_share_of_the_accumulator() {
    let v = validator_with_stake(100, 100 * YOCTO_PER_NEAR);
    let mut p = pool(100, 1_000);
    settle_farm_pool(&mut p, &v, 3_000_000_000);

    let mut pos = position(50);
    assert_eq!(farm_position_accumulated(50, p.acc_reward_per_share), 100_000);
    assert_eq!(preview_farm_position_pending(&pos, &p), 100_000);
    assert_eq!(settle_farm_position(&mut pos, &p, 3_000_000_000), 100_000);
    assert_eq!((pos.accrued_reward_units, pos.reward_debt, pos.updated_ns), (100_000, 100_000, 3_000_000_000));
    // Nothing more is pending until the accumulator grows.
    assert_eq!(settle_farm_position(&mut pos, &p, 3_000_000_001), 0);
    assert_eq!(pos.accrued_reward_units, 100_000);
}

#[test]
fn only_live_positions_can_leave_the_farm() {
    assert_eq!(require_active_farm_position(None), Err(ContractError::FarmPositionNotFound));
    let mut closed = position(5);
    closed.status = FarmStatus::Closed;
    assert_eq!(require_active_farm_position(Some(&closed)), Err(ContractError::FarmPositionNotActive));
    assert_eq!(require_active_farm_position(Some(&position(0))), Err(ContractError::FarmPositionEmpty));
    assert_eq!(require_active_farm_position(Some(&position(5))), Ok(()));
}

fn config() -> Config {
    Config {
        owner_account_id: "owner.near".to_string(),
        proposed_new_owner_account_id: None,
        guardians: Vec::new(),
        min_lock_duration_ns: 1,
        max_lock_duration_ns: 10,
        epoch_unstake_settle_epochs: 4,
        min_storage_deposit: 100,
        per_lock_storage_stake: 0,
        per_farm_position_storage_stake: 0,
        per_purchase_storage_stake: 0,
        min_lock_amount: 50,
    }
}

fn farm_price(amount: u128) -> Price {
    Price::new(
        "farm".to_string(),
        "prod".to_string(),
        "Farm".to_string(),
        String::new(),
        amount,
        PriceType::Farm,
        None,
        0,
        None,
    )
}

#[test]
fn stake_calls_are_checked_in_order() {
    let cfg = config();
    let registered = Account { storage_deposit: 100 };
    assert_eq!(check_stake_entry(false, Some(&registered), &cfg, 50), Ok(()));
    assert_eq!(check_stake_entry(false, Some(&registered), &cfg, 49), Err(ContractError::AttachedBelowMinLock));
    assert_eq!(check_stake_entry(false, None, &cfg, 50), Err(ContractError::AccountNotRegistered));
    assert_eq!(check_stake_entry(true, Some(&registered), &cfg, 50), Err(ContractError::Paused));

    let price = farm_price(60);
    let product = Product::new("prod".to_string(), "pool.near".to_string(), "P".to_string(), String::new(), 0);
    let v = validator_with_stake(0, 0);
    let id = "farm".to_string();
    let prod = "prod".to_string();
    assert_eq!(check_stake(60, &id, &prod, Some(&price), Some(&product), Some(&v), None, Ok(())), Ok(()));
    assert_eq!(
        check_stake(59, &id, &prod, Some(&price), Some(&product), Some(&v), None, Ok(())),
        Err(ContractError::FarmBelowMinimum)
    );
    assert_eq!(
        check_stake(60, &id, &"other".to_string(), Some(&price), Some(&product), Some(&v), None, Ok(())),
        Err(ContractError::FarmPriceForeign)
    );
    assert_eq!(
        check_stake(60, &id, &prod, Some(&price), Some(&product), Some(&v), None, Err(ContractError::StorageForFarmPosition)),
        Err(ContractError::StorageForFarmPosition)
    );
    let mut busy = validator_with_stake(0, 0);
    busy.tx_status = TransactionStatus::Busy;
    assert_eq!(
        check_stake(60, &id, &prod, Some(&price), Some(&product), Some(&busy), None, Ok(())),
        Err(ContractError::ValidatorBusy)
    );
    let mut other = position(5);
    other.price_id = "older".to_string();
    assert_eq!(
        check_stake(60, &id, &prod, Some(&price), Some(&product), Some(&v), Some(&other), Ok(())),
        Err(ContractError::ExistingFarmPriceDiffers)
    );
}

#[test]
fn unstake_calls_need_a_live_position_and_an_idle_pool() {
    let cfg = config();
    let registered = Account { storage_deposit: 100 };
    let v = validator_with_stake(10, 10);
    let pos = position(5);
    assert_eq!(check_unstake_entry(1, false, Some(&registered), &cfg, Some(&pos), Some(&v)), Ok(()));
    assert_eq!(check_unstake_entry(0, false, Some(&registered), &cfg, Some(&pos), Some(&v)), Err(ContractError::OneYoctoRequired));
    assert_eq!(check_unstake_entry(1, false, Some(&registered), &cfg, None, Some(&v)), Err(ContractError::FarmPositionNotFound));
    assert_eq!(check_unstake_entry(1, false, Some(&registered), &cfg, Some(&pos), None), Err(ContractError::ValidatorNotFound));
    assert_eq!(
        check_unstake_entry(1, false, Some(&Account { storage_deposit: 99 }), &cfg, Some(&pos), Some(&v)),
        Err(ContractError::StorageTopUp)
    );
}

#[test]
fn burned_shares_are_the_least_that_cover_the_amount() {
    // 10 yocto on 3 shares per 7 yocto of backing: ceil(30 / 7) = 5 shares, worth 5 * 7 / 3 = 11.
    let r = farm_shares_for_amount_ceil(10, 3, 7, 100);
    assert_eq!(r, 5);
    assert!(r * 7 / 3 >= 10);
    assert!((r - 1) * 7 / 3 < 10);
    assert_eq!(farm_shares_for_amount_ceil(10, 3, 7, 4), 4);
    assert_eq!(farm_shares_for_amount_ceil(14, 3, 7, 100), 6);
}

#[test]
fn unstaking_removes_the_same_shares_from_pool_and_position() {
    let mut v = validator_with_stake(100, 100 * YOCTO_PER_NEAR);
    let mut p = pool(100, 0);
    let mut a = position(60);
    let mut tranches = Vec::new();
    let c = commit_farm_unstake(
        &"alice.near".to_string(),
        &"pool.near".to_string(),
        60,
        &mut a,
        &mut p,
        &mut v,
        60,
        &mut tranches,
        None,
        2_000_000_000,
        3,
        4,
    )
    .unwrap();
    assert_eq!((p.total_farm_shares, a.shares), (40, 0));
    assert_eq!(a.status, FarmStatus::Closed);
    assert_eq!(c.near, 60 * YOCTO_PER_NEAR);
    assert_eq!(c.user_shares, 0);
    assert_eq!(v.total_shares, 40);
    assert!(c.farm_account.is_some());
}

#[test]
fn farm_stake_opens_a_position_and_records_the_product() {
    let price = farm_price(60);
    let product = Product::new("prod".to_string(), "pool.near".to_string(), "P".to_string(), String::new(), 0);
    let mut v = validator_with_stake(0, 0);
    let mut products: Vec<String> = Vec::new();
    let c = staking_contract::farm::commit_farm_stake(
        &"alice.near".to_string(),
        60,
        &"prod".to_string(),
        &"farm".to_string(),
        &"pool.near".to_string(),
        Some(price),
        Some(product),
        None,
        Some(pool(0, 0)),
        &mut v,
        0,
        Ok(()),
        None,
        0,
        &mut products,
        2_000_000_000,
    )
    .unwrap();
    assert_eq!(c.added_shares, 60);
    assert_eq!(c.position.shares, 60);
    assert_eq!(c.pool.total_farm_shares, 60);
    assert_eq!(c.farm_position_count, 1);
    assert_eq!(c.farm_account.unwrap().active_position_count, 1);
    assert_eq!((c.price.usage_count, c.product.usage_count), (1, 1));
    assert_eq!((v.total_shares, v.pending_to_stake), (60, 60));
    assert_eq!(products, vec!["prod".to_string()]);
}

#[test]
fn refused_farm_stake_leaves_pool_and_products_alone() {
    // Shares are issued but nothing backs them: no share can be minted.
    let price = farm_price(60);
    let product = Product::new("prod".to_string(), "pool.near".to_string(), "P".to_string(), String::new(), 0);
    let mut v = validator_with_stake(100, 0);
    let mut products: Vec<String> = vec!["other".to_string()];
    let r = staking_contract::farm::commit_farm_stake(
        &"alice.near".to_string(),
        60,
        &"prod".to_string(),
        &"farm".to_string(),
        &"pool.near".to_string(),
        Some(price),
        Some(product),
        None,
        Some(pool(0, 0)),
        &mut v,
        0,
        Ok(()),
        None,
        0,
        &mut products,
        2_000_000_000,
    );
    assert_eq!(r.err(), Some(ContractError::NoEffectiveStakeForMint));
    assert_eq!((v.total_shares, v.total_staked_balance, v.pending_to_stake), (100, 0, 0));
    assert_eq!(products, vec!["other".to_string()]);
}
