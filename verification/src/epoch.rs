//! Per-epoch validator pipeline: balance refresh, withdraw from the pool, at most one net
//! stake/unstake per epoch, the user step that follows, and release of the pool mutex.

use crate::errors::ContractError;
use crate::pricing::{sat_add, sat_sub};
use crate::types::{AccountId, PoolAccountView, TransactionStatus, UserAction, Validator};
use vstd::prelude::*;

verus! {

/// The pool marked busy by a pipeline run.
pub open spec fn spec_began(v: Validator) -> Validator {
    Validator { tx_status: TransactionStatus::Busy, ..v }
}

/// The pool mutex cleared.
pub open spec fn spec_released(v: Validator) -> Validator {
    Validator { tx_status: TransactionStatus::Idle, ..v }
}

/// Marks the pool busy for a pipeline run. Returns whether the full pre-user settlement must
/// run this epoch (`false`: the pool already settled this epoch, go straight to the user step).
pub fn begin_settlement(validator: &mut Validator, current_epoch: u64) -> (r: Result<bool, ContractError>)
    ensures
        old(validator).tx_status != TransactionStatus::Idle ==> r == Err::<bool, ContractError>(
            ContractError::ValidatorBusy,
        ) && *final(validator) == *old(validator),
        old(validator).tx_status == TransactionStatus::Idle ==> r == Ok::<bool, ContractError>(
            old(validator).last_settlement_epoch < current_epoch,
        ) && *final(validator) == spec_began(*old(validator)),
{
    validator.check_idle()?;
    let needs = validator.last_settlement_epoch < current_epoch;
    validator.tx_status = TransactionStatus::Busy;
    Ok(needs)
}

/// Records the pool's reported balance. Returns the unstaked amount to pull from the pool when
/// there is some and the pool allows it.
pub fn apply_pool_account(validator: &mut Validator, view: PoolAccountView, now_ns: u64) -> (r: Result<
    Option<u128>,
    ContractError,
>)
    ensures
        old(validator).tx_status != TransactionStatus::Busy ==> r == Err::<Option<u128>, ContractError>(
            ContractError::ValidatorNotBusy,
        ) && *final(validator) == *old(validator),
        old(validator).tx_status == TransactionStatus::Busy ==> {
            &&& *final(validator) == (Validator {
                total_staked_balance: sat_add(
                    view.unstaked_balance as int,
                    view.staked_balance as int,
                ) as u128,
                last_balance_refresh_ns: now_ns,
                ..*old(validator)
            })
            &&& r == Ok::<Option<u128>, ContractError>(
                if view.unstaked_balance > 0 && view.can_withdraw {
                    Some(view.unstaked_balance)
                } else {
                    None
                },
            )
        },
{
    validator.check_busy()?;
    validator.total_staked_balance = view.total_balance();
    validator.last_balance_refresh_ns = now_ns;
    let unstaked = view.unstaked();
    if unstaked > 0 && view.can_withdraw {
        Ok(Some(unstaked))
    } else {
        Ok(None)
    }
}

/// Preconditions of pulling `unstaked_balance` from the pool.
pub fn check_pool_withdraw(validator: &Validator, unstaked_balance: u128, pool_can_withdraw: bool) -> (r:
    Result<(), ContractError>)
    ensures
        r == if unstaked_balance == 0 {
            Err(ContractError::WithdrawRequiresUnstakedBalance)
        } else if !pool_can_withdraw {
            Err(ContractError::PoolNotWithdrawable)
        } else if validator.tx_status != TransactionStatus::Busy {
            Err(ContractError::ValidatorNotBusy)
        } else {
            Ok(())
        },
{
    if unstaked_balance == 0 {
        return Err(ContractError::WithdrawRequiresUnstakedBalance);
    }
    if !pool_can_withdraw {
        return Err(ContractError::PoolNotWithdrawable);
    }
    validator.check_busy()
}

/// What the settlement step does with the queued stake and unstake.
#[derive(Clone, Copy, Debug, PartialEq, Eq, Structural)]
pub enum SettleStep {
    /// Nothing queued, or this epoch's slot is used: go to the user step.
    Skip,
    /// Equal queues cancel inside the contract.
    NetZero(u128),
    /// Stake the net surplus on the pool.
    Stake(u128),
    /// Unstake the net deficit from the pool.
    Unstake(u128),
    /// A previous unstake has not settled yet: go to the user step.
    UnstakeWaiting,
}

pub open spec fn spec_settle_step(v: Validator, current_epoch: int, settle_epochs: int) -> SettleStep {
    let ps = v.pending_to_stake as int;
    let pu = v.pending_to_unstake as int;
    if !(ps > 0 || pu > 0) || !(v.last_settlement_epoch < current_epoch) {
        SettleStep::Skip
    } else if ps == pu {
        SettleStep::NetZero(ps as u128)
    } else if ps > pu {
        SettleStep::Stake((ps - pu) as u128)
    } else if v.last_unstake_epoch > 0 && !(current_epoch >= crate::validators::sat_add_u64(
        v.last_unstake_epoch as int,
        settle_epochs,
    )) {
        SettleStep::UnstakeWaiting
    } else {
        SettleStep::Unstake((pu - ps) as u128)
    }
}

/// At most one net pool operation per epoch.
pub fn settle_step(validator: &Validator, current_epoch: u64, settle_epochs: u64) -> (r: Result<
    SettleStep,
    ContractError,
>)
    ensures
        validator.tx_status != TransactionStatus::Busy ==> r == Err::<SettleStep, ContractError>(
            ContractError::ValidatorNotBusy,
        ),
        validator.tx_status == TransactionStatus::Busy ==> r == Ok::<SettleStep, ContractError>(
            spec_settle_step(*validator, current_epoch as int, settle_epochs as int),
        ),
{
    validator.check_busy()?;
    let ps = validator.pending_to_stake;
    let pu = validator.pending_to_unstake;
    let has_pending = ps > 0 || pu > 0;
    let can_settle = validator.last_settlement_epoch < current_epoch;
    if !has_pending || !can_settle {
        return Ok(SettleStep::Skip);
    }
    if ps == pu {
        return Ok(SettleStep::NetZero(ps));
    }
    if ps > pu {
        return Ok(SettleStep::Stake(ps - pu));
    }
    if validator.last_unstake_epoch > 0 && !validator.unstake_waiting_finished(
        current_epoch,
        settle_epochs,
    ) {
        return Ok(SettleStep::UnstakeWaiting);
    }
    Ok(SettleStep::Unstake(pu - ps))
}

/// State after the equal queues cancel: the matched amount becomes claimable in the contract.
pub open spec fn spec_after_net_zero(v: Validator, matched: int, current_epoch: int) -> Validator {
    Validator {
        pending_to_stake: 0,
        pending_to_unstake: 0,
        pending_to_claim: if matched > 0 {
            sat_add(v.pending_to_claim as int, matched) as u128
        } else {
            v.pending_to_claim
        },
        last_settlement_epoch: current_epoch as u64,
        ..v
    }
}

/// Cancels equal stake and unstake queues without a pool call. Refuses (returning `false`) when
/// the queues no longer both equal `matched`.
pub fn apply_net_zero_pending_matched_clear(
    validator: &mut Validator,
    matched: u128,
    current_epoch: u64,
) -> (r: bool)
    ensures
        r == (old(validator).pending_to_stake == matched && old(validator).pending_to_unstake
            == matched),
        r ==> *final(validator) == spec_after_net_zero(
            *old(validator),
            matched as int,
            current_epoch as int,
        ),
        !r ==> *final(validator) == *old(validator),
{
    if validator.pending_to_stake != matched || validator.pending_to_unstake != matched {
        return false;
    }
    validator.pending_to_stake = 0;
    validator.pending_to_unstake = 0;
    if matched > 0 {
        validator.pending_to_claim = validator.pending_to_claim.saturating_add(matched);
    }
    validator.last_settlement_epoch = current_epoch;
    true
}

/// State after a successful pool `deposit_and_stake` of the net surplus.
pub open spec fn spec_after_deposit_and_stake(v: Validator, current_epoch: int) -> Validator {
    Validator {
        pending_to_claim: if v.pending_to_unstake > 0 {
            sat_add(v.pending_to_claim as int, v.pending_to_unstake as int) as u128
        } else {
            v.pending_to_claim
        },
        pending_to_stake: 0,
        pending_to_unstake: 0,
        total_staked_balance: (v.total_staked_balance + (v.pending_to_stake
            - v.pending_to_unstake)) as u128,
        last_settlement_epoch: current_epoch as u64,
        ..v
    }
}

/// Pool `deposit_and_stake` callback. A failed call changes nothing and returns `false`.
pub fn on_deposit_and_stake(validator: &mut Validator, ok: bool, current_epoch: u64) -> (r: Result<
    bool,
    ContractError,
>)
    ensures
        !ok ==> r == Ok::<bool, ContractError>(false) && *final(validator) == *old(validator),
        ok && old(validator).pending_to_stake <= old(validator).pending_to_unstake ==> r == Err::<
            bool,
            ContractError,
        >(ContractError::DepositAndStakeWithoutNetStake) && *final(validator) == *old(validator),
        ok && old(validator).pending_to_stake > old(validator).pending_to_unstake
            && old(validator).total_staked_balance + (old(validator).pending_to_stake
            - old(validator).pending_to_unstake) > u128::MAX ==> r == Err::<bool, ContractError>(
            ContractError::StakedBalanceOverflow,
        ) && *final(validator) == *old(validator),
        ok && old(validator).pending_to_stake > old(validator).pending_to_unstake
            && old(validator).total_staked_balance + (old(validator).pending_to_stake
            - old(validator).pending_to_unstake) <= u128::MAX ==> r == Ok::<bool, ContractError>(true)
            && *final(validator) == spec_after_deposit_and_stake(
            *old(validator),
            current_epoch as int,
        ),
{
    if !ok {
        return Ok(false);
    }
    let ps = validator.pending_to_stake;
    let pu = validator.pending_to_unstake;
    if ps <= pu {
        return Err(ContractError::DepositAndStakeWithoutNetStake);
    }
    let net = ps - pu;
    let staked = match validator.total_staked_balance.checked_add(net) {
        Some(s) => s,
        None => {
            return Err(ContractError::StakedBalanceOverflow);
        },
    };
    if pu > 0 {
        validator.pending_to_claim = validator.pending_to_claim.saturating_add(pu);
    }
    validator.pending_to_stake = 0;
    validator.pending_to_unstake = 0;
    validator.total_staked_balance = staked;
    validator.last_settlement_epoch = current_epoch;
    Ok(true)
}

/// State after a successful pool `unstake` of the net deficit.
pub open spec fn spec_after_unstake(v: Validator, current_epoch: int) -> Validator {
    Validator {
        pending_to_claim: if v.pending_to_stake > 0 {
            sat_add(v.pending_to_claim as int, v.pending_to_stake as int) as u128
        } else {
            v.pending_to_claim
        },
        pending_to_unstake: 0,
        pending_to_stake: 0,
        pending_to_withdraw: sat_add(
            v.pending_to_withdraw as int,
            v.pending_to_unstake - v.pending_to_stake,
        ) as u128,
        last_unstake_epoch: current_epoch as u64,
        last_settlement_epoch: current_epoch as u64,
        ..v
    }
}

/// Pool `unstake` callback. A failed call changes nothing and returns `false`.
pub fn on_unstake(validator: &mut Validator, ok: bool, current_epoch: u64) -> (r: Result<
    bool,
    ContractError,
>)
    ensures
        !ok ==> r == Ok::<bool, ContractError>(false) && *final(validator) == *old(validator),
        ok && old(validator).pending_to_unstake <= old(validator).pending_to_stake ==> r == Err::<
            bool,
            ContractError,
        >(ContractError::UnstakeWithoutNetUnstake) && *final(validator) == *old(validator),
        ok && old(validator).pending_to_unstake > old(validator).pending_to_stake ==> r == Ok::<
            bool,
            ContractError,
        >(true) && *final(validator) == spec_after_unstake(*old(validator), current_epoch as int),
{
    if !ok {
        return Ok(false);
    }
    let ps = validator.pending_to_stake;
    let pu = validator.pending_to_unstake;
    if pu <= ps {
        return Err(ContractError::UnstakeWithoutNetUnstake);
    }
    let net = pu - ps;
    if ps > 0 {
        validator.pending_to_claim = validator.pending_to_claim.saturating_add(ps);
    }
    validator.pending_to_unstake = 0;
    validator.pending_to_stake = 0;
    validator.pending_to_withdraw = validator.pending_to_withdraw.saturating_add(net);
    validator.last_unstake_epoch = current_epoch;
    validator.last_settlement_epoch = current_epoch;
    Ok(true)
}

/// State after `withdrawn` NEAR arrived from the pool: it leaves the recorded pool balance and
/// the withdraw bucket (clamped at zero) and becomes claimable.
pub open spec fn spec_after_withdraw_in(v: Validator, withdrawn: int) -> Validator {
    Validator {
        total_staked_balance: (v.total_staked_balance - withdrawn) as u128,
        pending_to_withdraw: sat_sub(v.pending_to_withdraw as int, withdrawn) as u128,
        pending_to_claim: (v.pending_to_claim + withdrawn) as u128,
        ..v
    }
}

/// Pool `withdraw` callback: credits the withdrawn NEAR to the claim bucket. Returns whether
/// the pool call succeeded.
pub fn on_epoch_withdraw_transfer_done(validator: &mut Validator, ok: bool, withdrawn: u128) -> (r:
    Result<bool, ContractError>)
    ensures
        !(ok && withdrawn > 0) ==> r == Ok::<bool, ContractError>(ok) && *final(validator)
            == *old(validator),
        ok && withdrawn > 0 && old(validator).total_staked_balance < withdrawn ==> r == Err::<
            bool,
            ContractError,
        >(ContractError::RecordedBalanceBelowWithdrawn) && *final(validator) == *old(validator),
        ok && withdrawn > 0 && old(validator).total_staked_balance >= withdrawn
            && old(validator).pending_to_claim + withdrawn > u128::MAX ==> r == Err::<
            bool,
            ContractError,
        >(ContractError::PendingToClaimOverflow) && *final(validator) == *old(validator),
        ok && withdrawn > 0 && old(validator).total_staked_balance >= withdrawn
            && old(validator).pending_to_claim + withdrawn <= u128::MAX ==> r == Ok::<
            bool,
            ContractError,
        >(true) && *final(validator) == spec_after_withdraw_in(*old(validator), withdrawn as int),
{
    if ok && withdrawn > 0 {
        let balance = validator.total_staked_balance;
        if balance < withdrawn {
            return Err(ContractError::RecordedBalanceBelowWithdrawn);
        }
        let claim = match validator.pending_to_claim.checked_add(withdrawn) {
            Some(c) => c,
            None => {
                return Err(ContractError::PendingToClaimOverflow);
            },
        };
        validator.total_staked_balance = balance - withdrawn;
        validator.pending_to_withdraw = validator.pending_to_withdraw.saturating_sub(withdrawn);
        validator.pending_to_claim = claim;
    }
    Ok(ok)
}

/// Clears the pool mutex.
pub fn release_validator_pool_pipeline(validator: &mut Validator)
    ensures
        *final(validator) == spec_released(*old(validator)),
{
    validator.tx_status = TransactionStatus::Idle;
}

/// The pool's answer to a balance refresh: the mutex is released, and a successful answer
/// (`Some` total) replaces the cached staked balance and stamps the refresh time.
pub fn on_refresh_total_balance(validator: &mut Validator, refreshed: Option<u128>, now_ns: u64)
    ensures
        match refreshed {
            Some(total) => *final(validator) == (Validator {
                total_staked_balance: total,
                last_balance_refresh_ns: now_ns,
                ..spec_released(*old(validator))
            }),
            None => *final(validator) == spec_released(*old(validator)),
        },
{
    validator.tx_status = TransactionStatus::Idle;
    if let Some(total) = refreshed {
        validator.total_staked_balance = total;
        validator.last_balance_refresh_ns = now_ns;
    }
}

/// How the pipeline finishes after the user step.
#[derive(Clone, Copy, Debug, PartialEq, Eq, Structural)]
pub enum ReleaseKind {
    /// Settlement only: release right away, no user step.
    SettleOnly,
    /// Release after the user step whatever it returned.
    Terminal,
    /// Release and hand back the minted lock id; refund the deposit if the step failed.
    WithLockId,
    /// Release and hand back the subscription update outcome; refund if the step failed.
    WithSubscriptionUpdateOutcome,
    /// Release and hand back the farm position; refund if the step failed.
    WithFarmPosition,
}

pub open spec fn spec_release_kind(action: UserAction) -> ReleaseKind {
    match action {
        UserAction::CommitLock { .. } => ReleaseKind::WithLockId,
        UserAction::CommitRecurringSubscriptionLock { .. } => ReleaseKind::WithLockId,
        UserAction::SubscriptionUpdate { .. } => ReleaseKind::WithSubscriptionUpdateOutcome,
        UserAction::CommitFarmStake { .. } => ReleaseKind::WithFarmPosition,
        UserAction::FarmUnstakeQueue { .. } => ReleaseKind::Terminal,
        UserAction::UnlockQueueUnstake { .. } => ReleaseKind::Terminal,
        UserAction::WithdrawUserTransfer { .. } => ReleaseKind::Terminal,
        UserAction::SettleOnly { .. } => ReleaseKind::SettleOnly,
    }
}

/// Which release follows the user step of `action`.
pub fn dispatch_release_kind(action: &UserAction) -> (r: ReleaseKind)
    ensures
        r == spec_release_kind(*action),
{
    match action {
        UserAction::CommitLock { .. } => ReleaseKind::WithLockId,
        UserAction::CommitRecurringSubscriptionLock { .. } => ReleaseKind::WithLockId,
        UserAction::SubscriptionUpdate { .. } => ReleaseKind::WithSubscriptionUpdateOutcome,
        UserAction::CommitFarmStake { .. } => ReleaseKind::WithFarmPosition,
        UserAction::FarmUnstakeQueue { .. } => ReleaseKind::Terminal,
        UserAction::UnlockQueueUnstake { .. } => ReleaseKind::Terminal,
        UserAction::WithdrawUserTransfer { .. } => ReleaseKind::Terminal,
        UserAction::SettleOnly { .. } => ReleaseKind::SettleOnly,
    }
}

/// Releases the pool after a user step that returns a value. When the step failed, the
/// attached NEAR is returned to its sender (the result says to whom and how much).
pub fn release_after_user_step(validator: &mut Validator, step_ok: bool, action: &UserAction) -> (r:
    Option<(AccountId, u128)>)
    requires
        !step_ok ==> action.spec_payable_refund() is Some,
    ensures
        *final(validator) == spec_released(*old(validator)),
        r == if step_ok {
            None
        } else {
            action.spec_payable_refund()
        },
{
    release_validator_pool_pipeline(validator);
    if step_ok {
        None
    } else {
        action.payable_refund()
    }
}

/// Every settlement step keeps the share backing and the users' exit liability: the net
/// stake that prices shares and the sum of the three liability buckets are the same before and
/// after cancelling equal queues, staking the surplus, unstaking the deficit, or receiving
/// withdrawn NEAR (when no figure reaches the `u128` limit).
pub proof fn lemma_settlement_preserves_backing_and_liability(
    v: Validator,
    current_epoch: u64,
    withdrawn: u128,
)
    requires
        v.total_staked_balance + v.pending_to_stake <= u128::MAX,
        v.pending_to_unstake + v.pending_to_withdraw + v.pending_to_claim <= u128::MAX,
        v.total_staked_balance + v.pending_to_stake >= v.pending_to_unstake + v.pending_to_withdraw,
    ensures
        v.pending_to_stake == v.pending_to_unstake ==> {
            let a = spec_after_net_zero(v, v.pending_to_stake as int, current_epoch as int);
            a.spec_net_stake() == v.spec_net_stake() && a.spec_pending_user_liability()
                == v.spec_pending_user_liability()
        },
        v.pending_to_stake > v.pending_to_unstake ==> {
            let a = spec_after_deposit_and_stake(v, current_epoch as int);
            a.spec_net_stake() == v.spec_net_stake() && a.spec_pending_user_liability()
                == v.spec_pending_user_liability()
        },
        v.pending_to_unstake > v.pending_to_stake ==> {
            let a = spec_after_unstake(v, current_epoch as int);
            a.spec_net_stake() == v.spec_net_stake() && a.spec_pending_user_liability()
                == v.spec_pending_user_liability()
        },
        withdrawn <= v.pending_to_withdraw && withdrawn <= v.total_staked_balance ==> {
            let a = spec_after_withdraw_in(v, withdrawn as int);
            a.spec_net_stake() == v.spec_net_stake() && a.spec_pending_user_liability()
                == v.spec_pending_user_liability()
        },
{
}


/// One pipeline at a time per pool: a pool that began a run is busy, so a second run is refused
/// until the run is released, and releasing a run puts an idle pool back exactly as it was.
pub proof fn lemma_pipeline_mutex(v: Validator)
    requires
        v.tx_status == TransactionStatus::Idle,
    ensures
        spec_began(v).tx_status != TransactionStatus::Idle,
        spec_released(spec_began(v)) == v,
        spec_released(spec_began(v)).tx_status == TransactionStatus::Idle,
{
}

} // verus!
