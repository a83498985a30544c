use staking_contract::types::{PendingUnstakeTranche, Validator};
use staking_contract::validators::{internal_stake, internal_unstake, unstake_error};
use staking_contract::errors::ContractError;

#[test]
fn staking_then_exiting_the_minted_shares_returns_at_most_the_deposit() {
    let mut v = Validator::new("pool.near".to_string(), 0);
    v.total_shares = 3;
    v.total_staked_balance = 10;
    // 7 * 3 / 10 = 2 shares; they are then worth 2 * 17 / 5 = 6.
    let (minted, user_shares) = internal_stake(&mut v, 0, 7).unwrap();
    assert_eq!((minted, user_shares), (2, 2));
    assert_eq!((v.total_shares, v.pending_to_stake), (5, 7));
    let mut tranches: Vec<PendingUnstakeTranche> = Vec::new();
    let (near, left) = internal_unstake(&mut v, user_shares, &mut tranches, &"alice.near".to_string(), minted, 1, 4).unwrap();
    assert_eq!((near, left), (6, 0));
    assert!(near <= 7);
}

#[test]
fn exit_refusals_are_known_before_the_exit() {
    let mut v = Validator::new("pool.near".to_string(), 0);
    assert_eq!(unstake_error(&v, 1, 0), Some(ContractError::ZeroSharesToExit));
    assert_eq!(unstake_error(&v, 1, 1), Some(ContractError::ExitExceedsPoolShares));
    v.total_shares = 10;
    assert_eq!(unstake_error(&v, 1, 1), Some(ContractError::NoEffectiveStakeForExit));
    v.total_staked_balance = 100;
    assert_eq!(unstake_error(&v, 1, 2), Some(ContractError::InsufficientUserShares));
    assert_eq!(unstake_error(&v, 2, 2), None);
}
