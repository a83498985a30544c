use staking_contract::errors::ContractError;
use staking_contract::types::{PendingUnstakeTranche, TransactionStatus, Validator};
use staking_contract::withdraw::{
    claim_from_withdraw_bucket, claimable_tranches_yocto, remove_claimable_tranches,
    sum_user_unstake_tranches_yocto, withdraw_entry,
};

fn tranche(amount: u128, available_epoch_height: u64) -> PendingUnstakeTranche {
    PendingUnstakeTranche { amount, available_epoch_height }
}

fn pool_with_claims(pending_to_claim: u128) -> Validator {
    let mut v = Validator::new("pool.near".to_string(), 0);
    v.pending_to_claim = pending_to_claim;
    v.accounts_with_pending_unstake = vec!["alice.near".to_string(), "bob.near".to_string()];
    v
}

#[test]
fn tranche_sums_split_by_availability() {
    let tranches = vec![tranche(10, 5), tranche(20, 8), tranche(30, 5)];
    assert_eq!(sum_user_unstake_tranches_yocto(&tranches), 60);
    assert_eq!(claimable_tranches_yocto(&tranches, 4), 0);
    assert_eq!(claimable_tranches_yocto(&tranches, 5), 40);
    assert_eq!(claimable_tranches_yocto(&tranches, 8), 60);

    let mut kept = tranches.clone();
    assert_eq!(remove_claimable_tranches(&mut kept, 5), (40, false));
    assert_eq!(kept, vec![tranche(20, 8)]);
    assert_eq!(remove_claimable_tranches(&mut kept, 9), (20, true));
    assert!(kept.is_empty());
}

#[test]
fn withdraw_entry_lists_the_account_once() {
    let mut v = pool_with_claims(0);
    let alice = "alice.near".to_string();
    let carol = "carol.near".to_string();
    assert_eq!(withdraw_entry(&mut v, &vec![], &alice), Err(ContractError::NothingToClaimForValidator));
    assert_eq!(withdraw_entry(&mut v, &vec![tranche(1, 1)], &alice), Ok(()));
    assert_eq!(v.accounts_with_pending_unstake.len(), 2);
    assert_eq!(withdraw_entry(&mut v, &vec![tranche(1, 1)], &carol), Ok(()));
    assert_eq!(v.accounts_with_pending_unstake.last().map(String::as_str), Some("carol.near"));

    v.tx_status = TransactionStatus::Busy;
    assert_eq!(withdraw_entry(&mut v, &vec![tranche(1, 1)], &carol), Err(ContractError::ValidatorBusy));
}

#[test]
fn claims_pay_available_tranches_from_the_bucket() {
    let alice = "alice.near".to_string();
    let mut v = pool_with_claims(100);
    let mut tranches = vec![tranche(30, 5), tranche(50, 9)];
    assert_eq!(claim_from_withdraw_bucket(&mut v, &mut tranches, &alice, 5), Ok(30));
    assert_eq!(v.pending_to_claim, 70);
    assert_eq!(tranches, vec![tranche(50, 9)]);
    assert_eq!(v.accounts_with_pending_unstake.len(), 2);

    assert_eq!(claim_from_withdraw_bucket(&mut v, &mut tranches, &alice, 6), Err(ContractError::ClaimNotYetAvailable));
    assert_eq!(claim_from_withdraw_bucket(&mut v, &mut tranches, &alice, 9), Ok(50));
    assert!(tranches.is_empty());
    assert_eq!(v.pending_to_claim, 20);
    assert_eq!(v.accounts_with_pending_unstake, vec!["bob.near".to_string()]);

    let mut empty = pool_with_claims(0);
    let mut t = vec![tranche(1, 1)];
    assert_eq!(claim_from_withdraw_bucket(&mut empty, &mut t, &alice, 9), Err(ContractError::EmptyClaimBucket));
    let mut small = pool_with_claims(10);
    let mut big = vec![tranche(11, 1)];
    assert_eq!(claim_from_withdraw_bucket(&mut small, &mut big, &alice, 9), Err(ContractError::ClaimBucketTooSmall));
    assert_eq!(big, vec![tranche(11, 1)]);
}
