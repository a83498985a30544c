use staking_contract::errors::ContractError;
use staking_contract::governance::{assert_not_paused, assert_one_yocto, check_init_config, pause, unpause};
use staking_contract::pricing::PROTOCOL_MIN_LOCK_AMOUNT_YOCTO;
use staking_contract::types::Config;
use staking_contract::validators::{add_validator, pause_or_remove_validator};
use staking_contract::types::{TransactionStatus, Validator, ValidatorStatus};

fn config() -> Config {
    Config {
        owner_account_id: "owner.near".to_string(),
        proposed_new_owner_account_id: None,
        guardians: vec!["guard.near".to_string()],
        min_lock_duration_ns: 10,
        max_lock_duration_ns: 1_000,
        epoch_unstake_settle_epochs: 4,
        min_storage_deposit: 100,
        per_lock_storage_stake: 10,
        per_farm_position_storage_stake: 20,
        per_purchase_storage_stake: 30,
        min_lock_amount: PROTOCOL_MIN_LOCK_AMOUNT_YOCTO,
    }
}

fn who(id: &str) -> String {
    id.to_string()
}

#[test]
fn ownership_moves_only_through_propose_and_accept() {
    let mut c = config();
    assert_eq!(c.propose_new_owner_account_id(1, &who("guard.near"), Some(who("next.near"))), Err(ContractError::NotOwner));
    assert_eq!(c.propose_new_owner_account_id(0, &who("owner.near"), Some(who("next.near"))), Err(ContractError::OneYoctoRequired));
    assert_eq!(c.propose_new_owner_account_id(1, &who("owner.near"), Some(who("next.near"))), Ok(()));
    assert_eq!(c.proposed_new_owner_account_id.as_deref(), Some("next.near"));

    assert_eq!(c.accept_ownership(1, &who("other.near")), Err(ContractError::NotProposedOwner));
    assert_eq!(c.accept_ownership(1, &who("next.near")), Ok(()));
    assert_eq!(c.owner_account_id, "next.near");
    assert_eq!(c.proposed_new_owner_account_id, None);
    assert_eq!(c.assert_owner(&who("owner.near")), Err(ContractError::NotOwner));
    assert_eq!(c.assert_owner(&who("next.near")), Ok(()));
}

#[test]
fn owner_setters_need_one_yocto_and_the_owner() {
    let mut c = config();
    assert_eq!(c.set_lock_bounds(1, &who("owner.near"), 5, 50), Ok(()));
    assert_eq!((c.min_lock_duration_ns, c.max_lock_duration_ns), (5, 50));
    assert_eq!(c.set_lock_bounds(2, &who("owner.near"), 6, 60), Err(ContractError::OneYoctoRequired));
    assert_eq!(c.min_lock_duration_ns, 5);

    assert_eq!(
        c.set_min_lock_amount(1, &who("owner.near"), PROTOCOL_MIN_LOCK_AMOUNT_YOCTO - 1),
        Err(ContractError::MinLockAmountBelowProtocolFloor)
    );
    assert_eq!(c.set_min_lock_amount(1, &who("owner.near"), 2 * PROTOCOL_MIN_LOCK_AMOUNT_YOCTO), Ok(()));
    assert_eq!(c.min_lock_amount, 2 * PROTOCOL_MIN_LOCK_AMOUNT_YOCTO);

    assert_eq!(c.set_min_storage_deposit(1, &who("guard.near"), 7), Err(ContractError::NotOwner));
    assert_eq!(c.set_min_storage_deposit(1, &who("owner.near"), 7), Ok(()));
    assert_eq!(c.set_epoch_unstake_settle_epochs(1, &who("owner.near"), 9), Ok(()));
    assert_eq!(c.set_per_lock_storage_stake(1, &who("owner.near"), 11), Ok(()));
    assert_eq!(c.set_guardians(1, &who("owner.near"), vec![who("g2.near")]), Ok(()));
    assert_eq!((c.min_storage_deposit, c.epoch_unstake_settle_epochs, c.per_lock_storage_stake), (7, 9, 11));
    assert_eq!(c.guardians, vec![who("g2.near")]);
}

#[test]
fn guardians_pause_and_only_the_owner_unpauses() {
    let c = config();
    let mut paused = false;
    assert_eq!(pause(&mut paused, 1, &c, &who("stranger.near")), Err(ContractError::NotGuardianOrOwner));
    assert!(!paused);
    assert_eq!(pause(&mut paused, 1, &c, &who("guard.near")), Ok(()));
    assert!(paused);
    assert_eq!(assert_not_paused(paused), Err(ContractError::Paused));
    assert_eq!(unpause(&mut paused, 1, &c, &who("guard.near")), Err(ContractError::NotOwner));
    assert!(paused);
    assert_eq!(unpause(&mut paused, 1, &c, &who("owner.near")), Ok(()));
    assert!(!paused);
    assert_eq!(assert_not_paused(paused), Ok(()));
    assert_eq!(assert_one_yocto(0), Err(ContractError::OneYoctoRequired));
    assert_eq!(assert_one_yocto(1), Ok(()));
}

#[test]
fn initial_configuration_respects_the_protocol_floor() {
    let mut c = config();
    assert_eq!(check_init_config(&c), Ok(()));
    c.min_lock_amount = 1;
    assert_eq!(check_init_config(&c), Err(ContractError::MinLockAmountBelowProtocolFloor));
}

#[test]
fn validators_are_added_paused_and_removed_by_the_owner() {
    let c = config();
    let v = add_validator(1, &c, &who("owner.near"), false, who("pool.near"), 33).unwrap();
    assert_eq!(v.validator_id, "pool.near");
    assert_eq!(v.status, ValidatorStatus::Active);
    assert_eq!(v.tx_status, TransactionStatus::Idle);
    assert_eq!(v.last_balance_refresh_ns, 33);
    assert_eq!(
        add_validator(1, &c, &who("owner.near"), true, who("pool.near"), 33).unwrap_err(),
        ContractError::ValidatorAlreadyExists
    );
    assert_eq!(add_validator(1, &c, &who("guard.near"), false, who("pool.near"), 33).unwrap_err(), ContractError::NotOwner);

    let paused = pause_or_remove_validator(1, &c, &who("owner.near"), Some(v), false).unwrap();
    assert_eq!(paused.status, ValidatorStatus::Paused);
    let removed = pause_or_remove_validator(1, &c, &who("owner.near"), Some(paused), true).unwrap();
    assert_eq!(removed.status, ValidatorStatus::Removed);

    let mut busy_books = Validator::new(who("pool2.near"), 0);
    busy_books.total_shares = 5;
    assert_eq!(
        pause_or_remove_validator(1, &c, &who("owner.near"), Some(busy_books), true).unwrap_err(),
        ContractError::ValidatorNotEmpty
    );
    assert!(pause_or_remove_validator(1, &c, &who("owner.near"), None, true).is_err());
}
