use staking_contract::epoch::{
    apply_net_zero_pending_matched_clear, apply_pool_account, begin_settlement, check_pool_withdraw,
    dispatch_release_kind, on_deposit_and_stake, on_epoch_withdraw_transfer_done, on_refresh_total_balance,
    on_unstake, release_after_user_step, release_validator_pool_pipeline, settle_step, ReleaseKind, SettleStep,
};
use staking_contract::errors::ContractError;
use staking_contract::types::{PoolAccountView, TransactionStatus, UserAction, Validator};

fn busy_pool(pending_to_stake: u128, pending_to_unstake: u128) -> Validator {
    let mut v = Validator::new("pool.near".to_string(), 0);
    v.tx_status = TransactionStatus::Busy;
    v.pending_to_stake = pending_to_stake;
    v.pending_to_unstake = pending_to_unstake;
    v.total_staked_balance = 1_000;
    v
}

#[test]
fn settlement_takes_the_pool_mutex_once_per_run() {
    let mut v = Validator::new("pool.near".to_string(), 0);
    v.last_settlement_epoch = 5;
    assert_eq!(begin_settlement(&mut v, 6), Ok(true));
    assert_eq!(v.tx_status, TransactionStatus::Busy);
    assert_eq!(begin_settlement(&mut v, 6), Err(ContractError::ValidatorBusy));
    release_validator_pool_pipeline(&mut v);
    assert_eq!(v.tx_status, TransactionStatus::Idle);
    assert_eq!(begin_settlement(&mut v, 5), Ok(false));
}

#[test]
fn settle_step_nets_the_queues() {
    assert_eq!(settle_step(&busy_pool(10, 4), 3, 4), Ok(SettleStep::Stake(6)));
    assert_eq!(settle_step(&busy_pool(4, 10), 3, 4), Ok(SettleStep::Unstake(6)));
    assert_eq!(settle_step(&busy_pool(7, 7), 3, 4), Ok(SettleStep::NetZero(7)));
    assert_eq!(settle_step(&busy_pool(0, 0), 3, 4), Ok(SettleStep::Skip));

    let mut settled = busy_pool(10, 4);
    settled.last_settlement_epoch = 3;
    assert_eq!(settle_step(&settled, 3, 4), Ok(SettleStep::Skip));

    let mut waiting = busy_pool(0, 10);
    waiting.last_unstake_epoch = 2;
    assert_eq!(settle_step(&waiting, 5, 4), Ok(SettleStep::UnstakeWaiting));
    assert_eq!(settle_step(&waiting, 6, 4), Ok(SettleStep::Unstake(10)));

    let idle = Validator::new("pool.near".to_string(), 0);
    assert_eq!(settle_step(&idle, 3, 4), Err(ContractError::ValidatorNotBusy));
}

#[test]
fn matched_queues_clear_into_the_claim_bucket() {
    let mut v = busy_pool(7, 7);
    assert!(apply_net_zero_pending_matched_clear(&mut v, 7, 9));
    assert_eq!((v.pending_to_stake, v.pending_to_unstake, v.pending_to_claim), (0, 0, 7));
    assert_eq!(v.last_settlement_epoch, 9);

    let mut changed = busy_pool(7, 8);
    assert!(!apply_net_zero_pending_matched_clear(&mut changed, 7, 9));
    assert_eq!((changed.pending_to_stake, changed.pending_to_unstake), (7, 8));
}

#[test]
fn deposit_and_stake_callback_moves_the_net_surplus_onto_the_pool() {
    let mut v = busy_pool(10, 4);
    assert_eq!(on_deposit_and_stake(&mut v, true, 8), Ok(true));
    assert_eq!(v.total_staked_balance, 1_006);
    assert_eq!(v.pending_to_claim, 4);
    assert_eq!((v.pending_to_stake, v.pending_to_unstake), (0, 0));
    assert_eq!(v.last_settlement_epoch, 8);

    let mut failed = busy_pool(10, 4);
    assert_eq!(on_deposit_and_stake(&mut failed, false, 8), Ok(false));
    assert_eq!(failed.pending_to_stake, 10);

    let mut no_surplus = busy_pool(4, 10);
    assert_eq!(on_deposit_and_stake(&mut no_surplus, true, 8), Err(ContractError::DepositAndStakeWithoutNetStake));

    let mut overflow = busy_pool(10, 0);
    overflow.total_staked_balance = u128::MAX;
    assert_eq!(on_deposit_and_stake(&mut overflow, true, 8), Err(ContractError::StakedBalanceOverflow));
}

#[test]
fn unstake_callback_queues_the_net_deficit_for_withdrawal() {
    let mut v = busy_pool(4, 10);
    assert_eq!(on_unstake(&mut v, true, 8), Ok(true));
    assert_eq!(v.pending_to_withdraw, 6);
    assert_eq!(v.pending_to_claim, 4);
    assert_eq!((v.last_unstake_epoch, v.last_settlement_epoch), (8, 8));

    let mut no_deficit = busy_pool(10, 4);
    assert_eq!(on_unstake(&mut no_deficit, true, 8), Err(ContractError::UnstakeWithoutNetUnstake));
    let mut failed = busy_pool(4, 10);
    assert_eq!(on_unstake(&mut failed, false, 8), Ok(false));
    assert_eq!(failed.pending_to_withdraw, 0);
}

#[test]
fn pool_withdrawal_credits_the_claim_bucket() {
    let mut v = busy_pool(0, 0);
    v.pending_to_withdraw = 50;
    assert_eq!(on_epoch_withdraw_transfer_done(&mut v, true, 60), Ok(true));
    assert_eq!(v.total_staked_balance, 940);
    assert_eq!(v.pending_to_withdraw, 0);
    assert_eq!(v.pending_to_claim, 60);

    let mut short = busy_pool(0, 0);
    assert_eq!(
        on_epoch_withdraw_transfer_done(&mut short, true, 2_000),
        Err(ContractError::RecordedBalanceBelowWithdrawn)
    );
    let mut full = busy_pool(0, 0);
    full.pending_to_claim = u128::MAX;
    assert_eq!(on_epoch_withdraw_transfer_done(&mut full, true, 1), Err(ContractError::PendingToClaimOverflow));
    assert_eq!(on_epoch_withdraw_transfer_done(&mut busy_pool(0, 0), false, 10), Ok(false));
}

#[test]
fn pool_account_view_refreshes_the_recorded_balance() {
    let mut v = busy_pool(0, 0);
    let view = PoolAccountView { unstaked_balance: 30, staked_balance: 900, can_withdraw: true };
    assert_eq!(apply_pool_account(&mut v, view, 77), Ok(Some(30)));
    assert_eq!(v.total_staked_balance, 930);
    assert_eq!(v.last_balance_refresh_ns, 77);
    let locked = PoolAccountView { unstaked_balance: 30, staked_balance: 900, can_withdraw: false };
    assert_eq!(apply_pool_account(&mut v, locked, 78), Ok(None));

    let mut idle = Validator::new("pool.near".to_string(), 0);
    assert_eq!(apply_pool_account(&mut idle, view, 77), Err(ContractError::ValidatorNotBusy));

    assert_eq!(check_pool_withdraw(&v, 0, true), Err(ContractError::WithdrawRequiresUnstakedBalance));
    assert_eq!(check_pool_withdraw(&v, 5, false), Err(ContractError::PoolNotWithdrawable));
    assert_eq!(check_pool_withdraw(&v, 5, true), Ok(()));
}

#[test]
fn balance_refresh_releases_the_pool() {
    let mut v = busy_pool(0, 0);
    on_refresh_total_balance(&mut v, Some(2_000), 99);
    assert_eq!(v.tx_status, TransactionStatus::Idle);
    assert_eq!((v.total_staked_balance, v.last_balance_refresh_ns), (2_000, 99));

    let mut failed = busy_pool(0, 0);
    on_refresh_total_balance(&mut failed, None, 99);
    assert_eq!(failed.tx_status, TransactionStatus::Idle);
    assert_eq!((failed.total_staked_balance, failed.last_balance_refresh_ns), (1_000, 0));
}

#[test]
fn release_after_a_failed_step_refunds_the_deposit() {
    let action = UserAction::CommitFarmStake {
        validator_id: "pool.near".to_string(),
        account_id: "alice.near".to_string(),
        deposit: 42,
        product_id: "prod".to_string(),
        price_id: "price".to_string(),
    };
    assert_eq!(dispatch_release_kind(&action), ReleaseKind::WithFarmPosition);
    let mut v = busy_pool(0, 0);
    assert_eq!(release_after_user_step(&mut v, false, &action), Some(("alice.near".to_string(), 42)));
    assert_eq!(v.tx_status, TransactionStatus::Idle);
    let mut w = busy_pool(0, 0);
    assert_eq!(release_after_user_step(&mut w, true, &action), None);

    let settle = UserAction::SettleOnly { validator_id: "pool.near".to_string() };
    assert_eq!(dispatch_release_kind(&settle), ReleaseKind::SettleOnly);
}
