use staking_contract::errors::ContractError;
use staking_contract::storage::{
    available_storage_yocto, ensure_min_base_storage, ensure_min_storage_for_new_lock, has_retained_record_storage,
    storage_balance_bounds, storage_balance_of, storage_deposit, storage_unregister, storage_withdraw,
    StorageCounts,
};
use staking_contract::types::{Account, Config};

fn config() -> Config {
    Config {
        owner_account_id: "owner.near".to_string(),
        proposed_new_owner_account_id: None,
        guardians: Vec::new(),
        min_lock_duration_ns: 1,
        max_lock_duration_ns: 10,
        epoch_unstake_settle_epochs: 4,
        min_storage_deposit: 100,
        per_lock_storage_stake: 10,
        per_farm_position_storage_stake: 20,
        per_purchase_storage_stake: 30,
        min_lock_amount: 1,
    }
}

#[test]
fn balances_report_what_the_records_leave_free() {
    let cfg = config();
    let counts = StorageCounts { locks: 2, purchases: 1, farm_positions: 0 };
    let account = Account { storage_deposit: 200 };
    // 100 base + 2 locks * 10 + 1 purchase * 30 = 150 required.
    assert_eq!(available_storage_yocto(&account, &cfg, &counts), 50);
    let balance = storage_balance_of(Some(&account), &cfg, &counts).unwrap();
    assert_eq!((balance.total, balance.available), (200, 50));
    assert!(storage_balance_of(None, &cfg, &counts).is_none());
    let bounds = storage_balance_bounds(&cfg);
    assert_eq!((bounds.min, bounds.max), (100, None));
}

#[test]
fn deposits_top_up_and_registration_refunds_the_surplus() {
    let topped = storage_deposit(false, 50, Some(&Account { storage_deposit: 100 }), 100, false).unwrap();
    assert_eq!((topped.0.storage_deposit, topped.1), (150, 0));
    assert_eq!(storage_deposit(false, 0, None, 100, false).unwrap_err(), ContractError::StorageAttachRequired);
    assert_eq!(storage_deposit(false, 50, None, 100, false).unwrap_err(), ContractError::StorageBelowMinimum);
    assert_eq!(storage_deposit(true, 500, None, 100, false).unwrap_err(), ContractError::Paused);
    let registered = storage_deposit(false, 30, Some(&Account { storage_deposit: 100 }), 100, true).unwrap();
    assert_eq!((registered.0.storage_deposit, registered.1), (100, 30));
}

#[test]
fn withdrawals_are_bounded_by_the_free_balance() {
    let account = Account { storage_deposit: 200 };
    let all = storage_withdraw(1, false, Some(&account), 50, None).unwrap();
    assert_eq!((all.0.storage_deposit, all.1), (150, 50));
    let some = storage_withdraw(1, false, Some(&account), 50, Some(20)).unwrap();
    assert_eq!((some.0.storage_deposit, some.1), (180, 20));
    assert_eq!(storage_withdraw(1, false, Some(&account), 50, Some(51)).unwrap_err(), ContractError::StorageWithdrawTooLarge);
    assert_eq!(storage_withdraw(1, false, Some(&account), 50, Some(0)).unwrap_err(), ContractError::StorageWithdrawZero);
    assert_eq!(storage_withdraw(1, false, None, 50, None).unwrap_err(), ContractError::AccountNotRegistered);
    assert_eq!(storage_withdraw(2, false, Some(&account), 50, None).unwrap_err(), ContractError::OneYoctoRequired);
}

#[test]
fn unregistering_needs_an_account_without_records() {
    let account = Account { storage_deposit: 120 };
    let none = StorageCounts { locks: 0, purchases: 0, farm_positions: 0 };
    assert!(!has_retained_record_storage(&none, false, 0, false));
    assert!(has_retained_record_storage(&none, false, 0, true));
    assert!(has_retained_record_storage(&StorageCounts { locks: 1, purchases: 0, farm_positions: 0 }, false, 0, false));
    assert_eq!(storage_unregister(1, false, false, Some(&account), false), Ok(Some(120)));
    assert_eq!(storage_unregister(1, false, false, Some(&account), true), Ok(None));
    assert_eq!(storage_unregister(1, false, false, None, false), Ok(None));
    assert_eq!(storage_unregister(1, false, true, Some(&account), false), Err(ContractError::ForceUnregisterUnsupported));
}

#[test]
fn new_records_need_prepaid_storage() {
    let cfg = config();
    let counts = StorageCounts { locks: 0, purchases: 0, farm_positions: 0 };
    assert_eq!(ensure_min_base_storage(None, &cfg), Err(ContractError::AccountNotRegistered));
    assert_eq!(ensure_min_base_storage(Some(&Account { storage_deposit: 99 }), &cfg), Err(ContractError::StorageTopUp));
    assert_eq!(ensure_min_storage_for_new_lock(Some(&Account { storage_deposit: 109 }), &cfg, &counts), Err(ContractError::StorageForLock));
    assert_eq!(ensure_min_storage_for_new_lock(Some(&Account { storage_deposit: 110 }), &cfg, &counts), Ok(()));
}
