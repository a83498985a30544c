//! Lock rewards: a per-validator cumulative reward index (reward yocto-units per NEAR of locked
//! principal) that advances with time at the validator's rate, and per-lock states that book the
//! index growth since they were last settled. Claiming is bookkeeping only.

use crate::errors::ContractError;
use crate::pricing::{sat_add, sat_mul, sat_sub, saturating_mul_u128};
use crate::types::{AccountId, Config, Lock, LockId, LockRewardState, ValidatorId, ValidatorRewardConfig};
use vstd::prelude::*;

verus! {

/// Reward indices are per whole NEAR of principal.
pub const REWARD_NEAR_DENOMINATOR: u128 = 1_000_000_000_000_000_000_000_000;

/// The validator's reward index advanced to `now_ns` (a zero-rate index starting now when none
/// is stored).
pub open spec fn spec_projected_reward_config(
    config: Option<ValidatorRewardConfig>,
    validator_id: ValidatorId,
    now_ns: u64,
) -> ValidatorRewardConfig {
    let c = match config {
        Some(c) => c,
        None => ValidatorRewardConfig {
            validator_id,
            reward_rate_yocto_per_near_ns: 0,
            accumulated_reward_per_near: 0,
            last_update_ns: now_ns,
        },
    };
    if now_ns <= c.last_update_ns {
        c
    } else {
        ValidatorRewardConfig {
            accumulated_reward_per_near: sat_add(
                c.accumulated_reward_per_near as int,
                sat_mul(c.reward_rate_yocto_per_near_ns as int, now_ns - c.last_update_ns),
            ) as u128,
            last_update_ns: now_ns,
            ..c
        }
    }
}

pub fn project_validator_reward_config(
    config: Option<ValidatorRewardConfig>,
    validator_id: &ValidatorId,
    now_ns: u64,
) -> (r: ValidatorRewardConfig)
    ensures
        r == spec_projected_reward_config(config, *validator_id, now_ns),
{
    let mut c = match config {
        Some(c) => c,
        None => ValidatorRewardConfig {
            validator_id: validator_id.clone(),
            reward_rate_yocto_per_near_ns: 0,
            accumulated_reward_per_near: 0,
            last_update_ns: now_ns,
        },
    };
    if now_ns <= c.last_update_ns {
        return c;
    }
    let elapsed = (now_ns - c.last_update_ns) as u128;
    let delta = saturating_mul_u128(c.reward_rate_yocto_per_near_ns, elapsed);
    c.accumulated_reward_per_near = c.accumulated_reward_per_near.saturating_add(delta);
    c.last_update_ns = now_ns;
    c
}

/// Rewards of `amount_near` yocto of principal over an index growth of `delta`.
pub open spec fn spec_proportional_rewards(amount_near: int, delta: int) -> int {
    sat_mul(amount_near, delta) / (REWARD_NEAR_DENOMINATOR as int)
}

pub fn proportional_rewards(amount_near: u128, reward_index_delta: u128) -> (r: u128)
    ensures
        r == spec_proportional_rewards(amount_near as int, reward_index_delta as int),
{
    saturating_mul_u128(amount_near, reward_index_delta) / REWARD_NEAR_DENOMINATOR
}

/// A lock's reward state after booking the index growth since it was last settled.
pub open spec fn spec_projected_lock_state(
    amount_near: u128,
    state: LockRewardState,
    index: u128,
    now_ns: u64,
) -> LockRewardState {
    let delta = sat_sub(index as int, state.accumulated_reward_per_near_paid as int);
    if delta == 0 {
        LockRewardState { last_update_ns: now_ns, ..state }
    } else {
        LockRewardState {
            unclaimed_rewards: sat_add(
                state.unclaimed_rewards as int,
                spec_proportional_rewards(amount_near as int, delta),
            ) as u128,
            accumulated_reward_per_near_paid: index,
            last_update_ns: now_ns,
            ..state
        }
    }
}

pub fn project_lock_reward_state(amount_near: u128, state: LockRewardState, config: &ValidatorRewardConfig, now_ns: u64) -> (r:
    LockRewardState)
    ensures
        r == spec_projected_lock_state(amount_near, state, config.accumulated_reward_per_near, now_ns),
{
    let mut state = state;
    let delta = config.accumulated_reward_per_near.saturating_sub(state.accumulated_reward_per_near_paid);
    if delta == 0 {
        state.last_update_ns = now_ns;
        return state;
    }
    let accrued = proportional_rewards(amount_near, delta);
    state.unclaimed_rewards = state.unclaimed_rewards.saturating_add(accrued);
    state.accumulated_reward_per_near_paid = config.accumulated_reward_per_near;
    state.last_update_ns = now_ns;
    state
}

/// A new lock starts at the validator's current index with nothing earned.
pub fn initialize_lock_rewards(lock_id: &LockId, config: &ValidatorRewardConfig, now_ns: u64) -> (r:
    LockRewardState)
    ensures
        r == (LockRewardState {
            lock_id: *lock_id,
            accumulated_reward_per_near_paid: config.accumulated_reward_per_near,
            unclaimed_rewards: 0,
            claimed_rewards: 0,
            last_update_ns: now_ns,
        }),
{
    LockRewardState {
        lock_id: lock_id.clone(),
        accumulated_reward_per_near_paid: config.accumulated_reward_per_near,
        unclaimed_rewards: 0,
        claimed_rewards: 0,
        last_update_ns: now_ns,
    }
}

/// The lock's reward state settled against the advanced validator index (`config`); a lock
/// without a state starts at that index.
pub fn settle_lock_rewards(lock: &Lock, state: Option<LockRewardState>, config: &ValidatorRewardConfig, now_ns: u64) -> (r:
    LockRewardState)
    ensures
        r == spec_projected_lock_state(
            lock.amount_near,
            match state {
                Some(s) => s,
                None => LockRewardState {
                    lock_id: lock.lock_id,
                    accumulated_reward_per_near_paid: config.accumulated_reward_per_near,
                    unclaimed_rewards: 0,
                    claimed_rewards: 0,
                    last_update_ns: now_ns,
                },
            },
            config.accumulated_reward_per_near,
            now_ns,
        ),
{
    let s = match state {
        Some(s) => s,
        None => initialize_lock_rewards(&lock.lock_id, config, now_ns),
    };
    project_lock_reward_state(lock.amount_near, s, config, now_ns)
}

/// Entry checks of a reward update or claim: one attached yocto, not paused, the caller's lock.
pub fn check_lock_reward_call(
    attached: u128,
    paused: bool,
    caller: &AccountId,
    lock: Option<&Lock>,
    not_owner: ContractError,
) -> (r: Result<(), ContractError>)
    ensures
        r == if attached != 1 {
            Err(ContractError::OneYoctoRequired)
        } else if paused {
            Err(ContractError::Paused)
        } else {
            match lock {
                None => Err(ContractError::LockNotFound),
                Some(l) => if l.account_id@ != caller@ {
                    Err(not_owner)
                } else {
                    Ok(())
                },
            }
        },
{
    if attached != 1 {
        return Err(ContractError::OneYoctoRequired);
    }
    if paused {
        return Err(ContractError::Paused);
    }
    match lock {
        None => Err(ContractError::LockNotFound),
        Some(l) => if l.account_id != *caller {
            Err(not_owner)
        } else {
            Ok(())
        },
    }
}

/// Claims the settled state's unclaimed rewards: they move to the claimed total. Returns the
/// amount claimed.
pub fn claim_lock_rewards(state: &mut LockRewardState, now_ns: u64) -> (r: Result<u128, ContractError>)
    ensures
        old(state).unclaimed_rewards == 0 ==> r == Err::<u128, ContractError>(ContractError::NoRewards)
            && *final(state) == *old(state),
        old(state).unclaimed_rewards > 0 ==> r == Ok::<u128, ContractError>(old(state).unclaimed_rewards)
            && *final(state) == (LockRewardState {
            unclaimed_rewards: 0,
            claimed_rewards: sat_add(
                old(state).claimed_rewards as int,
                old(state).unclaimed_rewards as int,
            ) as u128,
            last_update_ns: now_ns,
            ..*old(state)
        }),
{
    let amount = state.unclaimed_rewards;
    if amount == 0 {
        return Err(ContractError::NoRewards);
    }
    state.unclaimed_rewards = 0;
    state.claimed_rewards = state.claimed_rewards.saturating_add(amount);
    state.last_update_ns = now_ns;
    Ok(amount)
}

/// Owner-only rate change for an allowlisted validator: the index is first advanced to now at
/// the old rate, so the new rate applies only from now on.
pub fn set_validator_reward_rate(
    attached: u128,
    config: &Config,
    caller: &AccountId,
    validator_found: bool,
    reward_config: Option<ValidatorRewardConfig>,
    validator_id: &ValidatorId,
    rate: u128,
    now_ns: u64,
) -> (r: Result<ValidatorRewardConfig, ContractError>)
    ensures
        r == if attached != 1 {
            Err(ContractError::OneYoctoRequired)
        } else if !config.spec_is_owner(caller@) {
            Err(ContractError::NotOwner)
        } else if !validator_found {
            Err(ContractError::ValidatorNotFound)
        } else {
            Ok(
                ValidatorRewardConfig {
                    reward_rate_yocto_per_near_ns: rate,
                    last_update_ns: now_ns,
                    ..spec_projected_reward_config(reward_config, *validator_id, now_ns)
                },
            )
        },
{
    if attached != 1 {
        return Err(ContractError::OneYoctoRequired);
    }
    match config.assert_owner(caller) {
        Ok(()) => {},
        Err(e) => {
            return Err(e);
        },
    }
    if !validator_found {
        return Err(ContractError::ValidatorNotFound);
    }
    let mut c = project_validator_reward_config(reward_config, validator_id, now_ns);
    c.reward_rate_yocto_per_near_ns = rate;
    c.last_update_ns = now_ns;
    Ok(c)
}

/// The reward index never decreases as time advances, and projecting twice to the same time is
/// projecting once.
pub proof fn lemma_reward_index_monotone(c: ValidatorRewardConfig, t1: u64, t2: u64)
    requires
        t1 <= t2,
    ensures
        spec_projected_reward_config(Some(c), c.validator_id, t1).accumulated_reward_per_near
            >= c.accumulated_reward_per_near,
        spec_projected_reward_config(
            Some(spec_projected_reward_config(Some(c), c.validator_id, t1)),
            c.validator_id,
            t2,
        ).accumulated_reward_per_near >= spec_projected_reward_config(
            Some(c),
            c.validator_id,
            t1,
        ).accumulated_reward_per_near,
        spec_projected_reward_config(
            Some(spec_projected_reward_config(Some(c), c.validator_id, t1)),
            c.validator_id,
            t1,
        ) == spec_projected_reward_config(Some(c), c.validator_id, t1),
{
    let c1 = spec_projected_reward_config(Some(c), c.validator_id, t1);
    if t1 > c.last_update_ns {
        assert(sat_mul(c.reward_rate_yocto_per_near_ns as int, t1 - c.last_update_ns) >= 0) by (nonlinear_arith)
            requires
                c.reward_rate_yocto_per_near_ns >= 0,
                t1 - c.last_update_ns > 0,
        ;
    }
    if t2 > c1.last_update_ns {
        assert(sat_mul(c1.reward_rate_yocto_per_near_ns as int, t2 - c1.last_update_ns) >= 0) by (nonlinear_arith)
            requires
                c1.reward_rate_yocto_per_near_ns >= 0,
                t2 - c1.last_update_ns > 0,
        ;
    }
}

/// Claiming keeps the lock's total earned rewards (claimed plus unclaimed), short of saturation.
pub proof fn lemma_claim_preserves_earned(state: LockRewardState, now_ns: u64)
    requires
        state.unclaimed_rewards > 0,
        state.claimed_rewards + state.unclaimed_rewards <= u128::MAX,
    ensures
        ({
            let after = LockRewardState {
                unclaimed_rewards: 0,
                claimed_rewards: sat_add(
                    state.claimed_rewards as int,
                    state.unclaimed_rewards as int,
                ) as u128,
                last_update_ns: now_ns,
                ..state
            };
            after.claimed_rewards + after.unclaimed_rewards == state.claimed_rewards
                + state.unclaimed_rewards
        }),
{
}

/// Settling a lock twice against the same reward index books nothing the second time.
pub proof fn lemma_lock_settle_idempotent(amount_near: u128, state: LockRewardState, index: u128, now_ns: u64)
    ensures
        spec_projected_lock_state(
            amount_near,
            spec_projected_lock_state(amount_near, state, index, now_ns),
            index,
            now_ns,
        ).unclaimed_rewards == spec_projected_lock_state(amount_near, state, index, now_ns).unclaimed_rewards,
        spec_projected_lock_state(amount_near, state, index, now_ns).unclaimed_rewards
            >= state.unclaimed_rewards,
{
    let delta = sat_sub(index as int, state.accumulated_reward_per_near_paid as int);
    if delta != 0 {
        assert(spec_proportional_rewards(amount_near as int, delta) >= 0) by (nonlinear_arith)
            requires
                delta > 0,
                amount_near >= 0,
        {
            assert(sat_mul(amount_near as int, delta) >= 0) by (nonlinear_arith)
                requires
                    delta > 0,
                    amount_near >= 0,
            ;
        }
    }
}

} // verus!
