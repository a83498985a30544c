use staking_contract::errors::ContractError;
use staking_contract::rewards::{
    claim_lock_rewards, initialize_lock_rewards, project_lock_reward_state, project_validator_reward_config,
    proportional_rewards, set_validator_reward_rate, REWARD_NEAR_DENOMINATOR,
};
use staking_contract::types::{Config, LockRewardState, ValidatorRewardConfig};

fn owner_config() -> Config {
    Config {
        owner_account_id: "owner.near".to_string(),
        proposed_new_owner_account_id: None,
        guardians: Vec::new(),
        min_lock_duration_ns: 1,
        max_lock_duration_ns: 10,
        epoch_unstake_settle_epochs: 4,
        min_storage_deposit: 0,
        per_lock_storage_stake: 0,
        per_farm_position_storage_stake: 0,
        per_purchase_storage_stake: 0,
        min_lock_amount: REWARD_NEAR_DENOMINATOR,
    }
}

fn rate_config(rate: u128, index: u128, at: u64) -> ValidatorRewardConfig {
    ValidatorRewardConfig {
        validator_id: "pool.near".to_string(),
        reward_rate_yocto_per_near_ns: rate,
        accumulated_reward_per_near: index,
        last_update_ns: at,
    }
}

#[test]
fn the_reward_index_advances_at_the_rate() {
    let c = project_validator_reward_config(Some(rate_config(3, 100, 10)), &"pool.near".to_string(), 20);
    assert_eq!((c.accumulated_reward_per_near, c.last_update_ns), (130, 20));
    let fresh = project_validator_reward_config(None, &"pool.near".to_string(), 20);
    assert_eq!((fresh.reward_rate_yocto_per_near_ns, fresh.accumulated_reward_per_near, fresh.last_update_ns), (0, 0, 20));
    let earlier = project_validator_reward_config(Some(rate_config(3, 100, 30)), &"pool.near".to_string(), 20);
    assert_eq!((earlier.accumulated_reward_per_near, earlier.last_update_ns), (100, 30));
}

#[test]
fn locks_earn_in_proportion_to_their_principal() {
    assert_eq!(proportional_rewards(2 * REWARD_NEAR_DENOMINATOR, 500), 1_000);
    assert_eq!(proportional_rewards(REWARD_NEAR_DENOMINATOR / 2, 3), 1);

    let config = rate_config(0, 700, 0);
    let start = initialize_lock_rewards(&"lock_1".to_string(), &rate_config(0, 200, 0), 5);
    assert_eq!((start.accumulated_reward_per_near_paid, start.unclaimed_rewards), (200, 0));
    let settled = project_lock_reward_state(3 * REWARD_NEAR_DENOMINATOR, start, &config, 9);
    assert_eq!(settled.unclaimed_rewards, 1_500);
    assert_eq!(settled.accumulated_reward_per_near_paid, 700);
    let again = project_lock_reward_state(3 * REWARD_NEAR_DENOMINATOR, settled, &config, 10);
    assert_eq!(again.unclaimed_rewards, 1_500);
    assert_eq!(again.last_update_ns, 10);
}

#[test]
fn claiming_moves_unclaimed_rewards_to_claimed() {
    let mut state = LockRewardState {
        lock_id: "lock_1".to_string(),
        accumulated_reward_per_near_paid: 0,
        unclaimed_rewards: 40,
        claimed_rewards: 2,
        last_update_ns: 0,
    };
    assert_eq!(claim_lock_rewards(&mut state, 7), Ok(40));
    assert_eq!((state.unclaimed_rewards, state.claimed_rewards, state.last_update_ns), (0, 42, 7));
    assert_eq!(claim_lock_rewards(&mut state, 8), Err(ContractError::NoRewards));
}

#[test]
fn only_the_owner_changes_a_rate_and_past_time_keeps_the_old_rate() {
    let config = owner_config();
    let owner = "owner.near".to_string();
    let id = "pool.near".to_string();
    let r = set_validator_reward_rate(1, &config, &owner, true, Some(rate_config(2, 0, 0)), &id, 9, 10).unwrap();
    assert_eq!((r.accumulated_reward_per_near, r.reward_rate_yocto_per_near_ns, r.last_update_ns), (20, 9, 10));
    assert_eq!(
        set_validator_reward_rate(1, &config, &"x.near".to_string(), true, None, &id, 9, 10).unwrap_err(),
        ContractError::NotOwner
    );
    assert_eq!(
        set_validator_reward_rate(1, &config, &owner, false, None, &id, 9, 10).unwrap_err(),
        ContractError::ValidatorNotFound
    );
    assert_eq!(
        set_validator_reward_rate(0, &config, &owner, true, None, &id, 9, 10).unwrap_err(),
        ContractError::OneYoctoRequired
    );
}
