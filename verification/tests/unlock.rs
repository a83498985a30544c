use staking_contract::errors::ContractError;
use staking_contract::lock::{check_unlock, resolve_unlock};
use staking_contract::types::{Lock, LockStatus, OrderRef, PendingUnstakeTranche, TransactionStatus, Validator};

fn lock(shares: u128, end_ns: u64) -> Lock {
    Lock {
        lock_id: "lock_1".to_string(),
        account_id: "alice.near".to_string(),
        validator_id: "pool.near".to_string(),
        amount_near: 100,
        shares,
        start_ns: 0,
        end_ns,
        order: OrderRef::ProductPurchase { product_id: "prod".to_string(), price_id: "price".to_string() },
        status: LockStatus::Active,
    }
}

fn backed_pool() -> Validator {
    let mut v = Validator::new("pool.near".to_string(), 0);
    v.total_shares = 1_000;
    v.total_staked_balance = 2_000;
    v
}

#[test]
fn unlock_checks_follow_the_lock_lifecycle() {
    let alice = "alice.near".to_string();
    let l = lock(40, 100);
    let v = backed_pool();
    assert_eq!(check_unlock(1, false, &alice, Some(&l), Ok(()), Some(&v), 100), Ok(40));
    assert_eq!(check_unlock(0, false, &alice, Some(&l), Ok(()), Some(&v), 100), Err(ContractError::OneYoctoRequired));
    assert_eq!(check_unlock(1, true, &alice, Some(&l), Ok(()), Some(&v), 100), Err(ContractError::Paused));
    assert_eq!(check_unlock(1, false, &alice, None, Ok(()), Some(&v), 100), Err(ContractError::LockNotFound));
    assert_eq!(
        check_unlock(1, false, &"bob.near".to_string(), Some(&l), Ok(()), Some(&v), 100),
        Err(ContractError::NotLockOwner)
    );
    assert_eq!(check_unlock(1, false, &alice, Some(&l), Ok(()), Some(&v), 99), Err(ContractError::LockNotEnded));
    assert_eq!(
        check_unlock(1, false, &alice, Some(&l), Err(ContractError::SubscriptionLockActive), Some(&v), 100),
        Err(ContractError::SubscriptionLockActive)
    );
    let mut busy = backed_pool();
    busy.tx_status = TransactionStatus::Busy;
    assert_eq!(check_unlock(1, false, &alice, Some(&l), Ok(()), Some(&busy), 100), Err(ContractError::ValidatorBusy));
    let mut done = lock(40, 100);
    done.status = LockStatus::UnlockRequested;
    assert_eq!(check_unlock(1, false, &alice, Some(&done), Ok(()), Some(&v), 100), Err(ContractError::LockNotActive));
}

#[test]
fn resolving_an_unlock_queues_the_lock_value() {
    let alice = "alice.near".to_string();
    let pool_id = "pool.near".to_string();
    let mut l = lock(40, 100);
    let mut v = backed_pool();
    let mut tranches: Vec<PendingUnstakeTranche> = Vec::new();
    // 40 of 1000 shares on 2000 NEAR of backing are worth 80.
    assert_eq!(resolve_unlock(&mut l, &alice, &pool_id, 40, &mut v, 40, &mut tranches, 10, 4), Ok((80, 0)));
    assert_eq!(l.status, LockStatus::UnlockRequested);
    assert_eq!((v.total_shares, v.pending_to_unstake), (960, 80));
    assert_eq!(tranches, vec![PendingUnstakeTranche { amount: 80, available_epoch_height: 14 }]);
    assert_eq!(v.accounts_with_pending_unstake, vec![alice.clone()]);

    assert_eq!(
        resolve_unlock(&mut l, &alice, &pool_id, 40, &mut v, 40, &mut tranches, 10, 4),
        Err(ContractError::LockNoLongerActive)
    );
    let mut changed = lock(40, 100);
    assert_eq!(
        resolve_unlock(&mut changed, &alice, &pool_id, 39, &mut v, 40, &mut tranches, 10, 4),
        Err(ContractError::LockSharesChanged)
    );
    assert_eq!(changed.status, LockStatus::Active);
    assert_eq!(tranches.len(), 1);
}
