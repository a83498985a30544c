//! Prepaid storage (NEP-145): a base registration deposit plus a surcharge per lock, purchase
//! and farm position the account has created.

use crate::errors::ContractError;
use crate::pricing::{sat_add, sat_mul, sat_sub, saturating_mul_u128};
use crate::types::{opt_ref, Account, Config, StorageBalance, StorageBalanceBounds};
use vstd::prelude::*;

verus! {

/// Records the account has created, each of which keeps storage prepaid.
#[derive(Clone, Copy, Debug, PartialEq, Eq, Structural)]
pub struct StorageCounts {
    pub locks: u32,
    pub purchases: u32,
    pub farm_positions: u32,
}

/// Prepaid storage needed for the recorded counts plus the records about to be added.
pub open spec fn spec_required_storage(
    config: Config,
    counts: StorageCounts,
    extra_locks: int,
    extra_purchases: int,
    extra_farm_positions: int,
) -> int {
    let locks = sat_add(counts.locks as int, extra_locks);
    let purchases = sat_add(counts.purchases as int, extra_purchases);
    let farms = sat_add(counts.farm_positions as int, extra_farm_positions);
    sat_add(
        sat_add(
            sat_add(
                config.min_storage_deposit as int,
                sat_mul(config.per_lock_storage_stake as int, locks),
            ),
            sat_mul(config.per_purchase_storage_stake as int, purchases),
        ),
        sat_mul(config.per_farm_position_storage_stake as int, farms),
    )
}

pub fn required_storage_deposit_yocto(
    config: &Config,
    counts: &StorageCounts,
    extra_locks: u32,
    extra_purchases: u32,
    extra_farm_positions: u32,
) -> (r: u128)
    ensures
        r == spec_required_storage(
            *config,
            *counts,
            extra_locks as int,
            extra_purchases as int,
            extra_farm_positions as int,
        ),
{
    let total_locks = (counts.locks as u128).saturating_add(extra_locks as u128);
    let total_purchases = (counts.purchases as u128).saturating_add(extra_purchases as u128);
    let total_farms = (counts.farm_positions as u128).saturating_add(extra_farm_positions as u128);
    config.min_storage_deposit.saturating_add(
        saturating_mul_u128(config.per_lock_storage_stake, total_locks),
    ).saturating_add(saturating_mul_u128(config.per_purchase_storage_stake, total_purchases)).saturating_add(
        saturating_mul_u128(config.per_farm_position_storage_stake, total_farms),
    )
}

/// Without saturation, the storage requirement is the base deposit plus, for each kind of
/// record, its per-record stake times the records of that kind, those recorded and those about
/// to be added alike.
pub proof fn lemma_required_storage_counts_every_record(
    config: Config,
    counts: StorageCounts,
    extra_locks: u32,
    extra_purchases: u32,
    extra_farm_positions: u32,
)
    requires
        config.min_storage_deposit + config.per_lock_storage_stake * (counts.locks + extra_locks)
            + config.per_purchase_storage_stake * (counts.purchases + extra_purchases)
            + config.per_farm_position_storage_stake * (counts.farm_positions
            + extra_farm_positions) <= u128::MAX,
    ensures
        spec_required_storage(
            config,
            counts,
            extra_locks as int,
            extra_purchases as int,
            extra_farm_positions as int,
        ) == config.min_storage_deposit + config.per_lock_storage_stake * (counts.locks
            + extra_locks) + config.per_purchase_storage_stake * (counts.purchases
            + extra_purchases) + config.per_farm_position_storage_stake * (counts.farm_positions
            + extra_farm_positions),
{
    let l = counts.locks + extra_locks;
    let p = counts.purchases + extra_purchases;
    let f = counts.farm_positions + extra_farm_positions;
    vstd::arithmetic::mul::lemma_mul_nonnegative(config.per_lock_storage_stake as int, l);
    vstd::arithmetic::mul::lemma_mul_nonnegative(config.per_purchase_storage_stake as int, p);
    vstd::arithmetic::mul::lemma_mul_nonnegative(config.per_farm_position_storage_stake as int, f);
}

/// One more recorded farm position raises the storage requirement by exactly the per-position
/// stake (short of saturation); so does one more lock or purchase by its own stake.
pub proof fn lemma_required_storage_grows_per_record(
    config: Config,
    counts: StorageCounts,
    extra_locks: u32,
    extra_purchases: u32,
    extra_farm_positions: u32,
)
    requires
        config.min_storage_deposit + config.per_lock_storage_stake * (counts.locks + extra_locks
            + 1) + config.per_purchase_storage_stake * (counts.purchases + extra_purchases + 1)
            + config.per_farm_position_storage_stake * (counts.farm_positions
            + extra_farm_positions + 1) <= u128::MAX,
        counts.locks < u32::MAX,
        counts.purchases < u32::MAX,
        counts.farm_positions < u32::MAX,
    ensures
        ({
            let before = spec_required_storage(
                config,
                counts,
                extra_locks as int,
                extra_purchases as int,
                extra_farm_positions as int,
            );
            &&& spec_required_storage(
                config,
                StorageCounts { farm_positions: (counts.farm_positions + 1) as u32, ..counts },
                extra_locks as int,
                extra_purchases as int,
                extra_farm_positions as int,
            ) == before + config.per_farm_position_storage_stake
            &&& spec_required_storage(
                config,
                StorageCounts { locks: (counts.locks + 1) as u32, ..counts },
                extra_locks as int,
                extra_purchases as int,
                extra_farm_positions as int,
            ) == before + config.per_lock_storage_stake
            &&& spec_required_storage(
                config,
                StorageCounts { purchases: (counts.purchases + 1) as u32, ..counts },
                extra_locks as int,
                extra_purchases as int,
                extra_farm_positions as int,
            ) == before + config.per_purchase_storage_stake
        }),
{
    let l = counts.locks + extra_locks;
    let p = counts.purchases + extra_purchases;
    let f = counts.farm_positions + extra_farm_positions;
    let a = config.per_lock_storage_stake as int;
    let b = config.per_purchase_storage_stake as int;
    let c = config.per_farm_position_storage_stake as int;
    vstd::arithmetic::mul::lemma_mul_is_distributive_add(a, l, 1);
    vstd::arithmetic::mul::lemma_mul_is_distributive_add(b, p, 1);
    vstd::arithmetic::mul::lemma_mul_is_distributive_add(c, f, 1);
    vstd::arithmetic::mul::lemma_mul_nonnegative(a, l);
    vstd::arithmetic::mul::lemma_mul_nonnegative(b, p);
    vstd::arithmetic::mul::lemma_mul_nonnegative(c, f);
    lemma_required_storage_counts_every_record(
        config,
        counts,
        extra_locks,
        extra_purchases,
        extra_farm_positions,
    );
    lemma_required_storage_counts_every_record(
        config,
        StorageCounts { farm_positions: (counts.farm_positions + 1) as u32, ..counts },
        extra_locks,
        extra_purchases,
        extra_farm_positions,
    );
    lemma_required_storage_counts_every_record(
        config,
        StorageCounts { locks: (counts.locks + 1) as u32, ..counts },
        extra_locks,
        extra_purchases,
        extra_farm_positions,
    );
    lemma_required_storage_counts_every_record(
        config,
        StorageCounts { purchases: (counts.purchases + 1) as u32, ..counts },
        extra_locks,
        extra_purchases,
        extra_farm_positions,
    );
}

/// Prepaid storage the account may withdraw: what exceeds the requirement of its records.
pub open spec fn spec_available_storage(account: Account, config: Config, counts: StorageCounts) -> int {
    sat_sub(account.storage_deposit as int, spec_required_storage(config, counts, 0, 0, 0))
}

pub fn available_storage_yocto(account: &Account, config: &Config, counts: &StorageCounts) -> (r: u128)
    ensures
        r == spec_available_storage(*account, *config, *counts),
{
    account.storage_deposit.saturating_sub(required_storage_deposit_yocto(config, counts, 0, 0, 0))
}

pub fn storage_balance_bounds(config: &Config) -> (r: StorageBalanceBounds)
    ensures
        r == (StorageBalanceBounds { min: config.min_storage_deposit, max: None }),
{
    StorageBalanceBounds { min: config.min_storage_deposit, max: None }
}

pub fn storage_balance_of(account: Option<&Account>, config: &Config, counts: &StorageCounts) -> (r:
    Option<StorageBalance>)
    ensures
        r == match account {
            None => None,
            Some(a) => Some(
                StorageBalance {
                    total: a.storage_deposit,
                    available: spec_available_storage(*a, *config, *counts) as u128,
                },
            ),
        },
{
    match account {
        None => None,
        Some(a) => Some(
            StorageBalance {
                total: a.storage_deposit,
                available: available_storage_yocto(a, config, counts),
            },
        ),
    }
}

/// NEAR taken from `attached` by a deposit: with `registration_only`, at most what brings the
/// account up to the minimum; otherwise all of it.
pub open spec fn spec_storage_accepted(attached: int, current_total: int, min: int, registration_only: bool) -> int {
    if registration_only {
        let gap = sat_sub(min, current_total);
        if gap < attached {
            gap
        } else {
            attached
        }
    } else {
        attached
    }
}

/// Registers or tops up prepaid storage. Returns the stored account and the refund to the
/// caller (what was attached but not accepted).
pub fn storage_deposit(
    paused: bool,
    attached: u128,
    current: Option<&Account>,
    min_storage_deposit: u128,
    registration_only: bool,
) -> (r: Result<(Account, u128), ContractError>)
    ensures
        ({
            let current_total = match current {
                Some(a) => a.storage_deposit as int,
                None => 0,
            };
            let accepted = spec_storage_accepted(
                attached as int,
                current_total,
                min_storage_deposit as int,
                registration_only,
            );
            r == if paused {
                Err(ContractError::Paused)
            } else if !registration_only && attached == 0 {
                Err(ContractError::StorageAttachRequired)
            } else if current_total + accepted > u128::MAX {
                Err(ContractError::StorageDepositOverflow)
            } else if current_total + accepted < min_storage_deposit {
                Err(ContractError::StorageBelowMinimum)
            } else {
                Ok(
                    (
                        Account { storage_deposit: (current_total + accepted) as u128 },
                        (attached - accepted) as u128,
                    ),
                )
            }
        }),
{
    if paused {
        return Err(ContractError::Paused);
    }
    let current_total: u128 = match current {
        Some(a) => a.storage_deposit,
        None => 0,
    };
    let accepted: u128 = if registration_only {
        let gap = min_storage_deposit.saturating_sub(current_total);
        if gap < attached {
            gap
        } else {
            attached
        }
    } else {
        if attached == 0 {
            return Err(ContractError::StorageAttachRequired);
        }
        attached
    };
    let new_total = match current_total.checked_add(accepted) {
        Some(t) => t,
        None => {
            return Err(ContractError::StorageDepositOverflow);
        },
    };
    if new_total < min_storage_deposit {
        return Err(ContractError::StorageBelowMinimum);
    }
    Ok((Account { storage_deposit: new_total }, attached - accepted))
}

/// Withdraws available prepaid storage (all of it when no amount is named). Returns the stored
/// account and the amount sent back.
pub fn storage_withdraw(
    attached: u128,
    paused: bool,
    account: Option<&Account>,
    available: u128,
    amount: Option<u128>,
) -> (r: Result<(Account, u128), ContractError>)
    ensures
        r == if attached != 1 {
            Err(ContractError::OneYoctoRequired)
        } else if paused {
            Err(ContractError::Paused)
        } else {
            match account {
                None => Err(ContractError::AccountNotRegistered),
                Some(a) => match amount {
                    Some(x) => if x == 0 {
                        Err(ContractError::StorageWithdrawZero)
                    } else if x > available {
                        Err(ContractError::StorageWithdrawTooLarge)
                    } else if x > a.storage_deposit {
                        Err(ContractError::StorageWithdrawTooLarge)
                    } else {
                        Ok((Account { storage_deposit: (a.storage_deposit - x) as u128 }, x))
                    },
                    None => if available > a.storage_deposit {
                        Err(ContractError::StorageWithdrawTooLarge)
                    } else {
                        Ok(
                            (
                                Account { storage_deposit: (a.storage_deposit - available) as u128 },
                                available,
                            ),
                        )
                    },
                },
            }
        },
{
    if attached != 1 {
        return Err(ContractError::OneYoctoRequired);
    }
    if paused {
        return Err(ContractError::Paused);
    }
    let a = match account {
        Some(a) => a,
        None => {
            return Err(ContractError::AccountNotRegistered);
        },
    };
    let x = match amount {
        Some(x) => {
            if x == 0 {
                return Err(ContractError::StorageWithdrawZero);
            }
            if x > available {
                return Err(ContractError::StorageWithdrawTooLarge);
            }
            x
        },
        None => available,
    };
    if x > a.storage_deposit {
        return Err(ContractError::StorageWithdrawTooLarge);
    }
    Ok((Account { storage_deposit: a.storage_deposit - x }, x))
}

/// Withdrawing at most the available storage never leaves less than the records require.
pub proof fn lemma_withdraw_keeps_required(account: Account, config: Config, counts: StorageCounts, x: u128)
    requires
        x <= spec_available_storage(account, config, counts),
    ensures
        account.storage_deposit - x >= 0,
        spec_available_storage(account, config, counts) > 0 ==> account.storage_deposit - x
            >= spec_required_storage(config, counts, 0, 0, 0),
{
}

/// Records that keep an account's registration: locks, purchases or farm positions created,
/// subscriptions listed, active farm positions, or unstake tranches waiting to be claimed.
pub open spec fn spec_retains_storage(
    counts: StorageCounts,
    has_subscriptions: bool,
    active_farm_positions: u32,
    has_pending_tranches: bool,
) -> bool {
    counts.locks > 0 || counts.purchases > 0 || counts.farm_positions > 0 || has_subscriptions
        || active_farm_positions > 0 || has_pending_tranches
}

pub fn has_retained_record_storage(
    counts: &StorageCounts,
    has_subscriptions: bool,
    active_farm_positions: u32,
    has_pending_tranches: bool,
) -> (r: bool)
    ensures
        r == spec_retains_storage(
            *counts,
            has_subscriptions,
            active_farm_positions,
            has_pending_tranches,
        ),
{
    counts.locks > 0 || counts.purchases > 0 || counts.farm_positions > 0 || has_subscriptions
        || active_farm_positions > 0 || has_pending_tranches
}

/// Unregisters an account that retains no record storage. Returns the deposit to send back, or
/// `None` when nothing was unregistered.
pub fn storage_unregister(
    attached: u128,
    paused: bool,
    force: bool,
    account: Option<&Account>,
    retained: bool,
) -> (r: Result<Option<u128>, ContractError>)
    ensures
        r == if attached != 1 {
            Err(ContractError::OneYoctoRequired)
        } else if paused {
            Err(ContractError::Paused)
        } else if force {
            Err(ContractError::ForceUnregisterUnsupported)
        } else {
            match account {
                None => Ok(None),
                Some(a) => if retained {
                    Ok(None)
                } else {
                    Ok(Some(a.storage_deposit))
                },
            }
        },
{
    if attached != 1 {
        return Err(ContractError::OneYoctoRequired);
    }
    if paused {
        return Err(ContractError::Paused);
    }
    if force {
        return Err(ContractError::ForceUnregisterUnsupported);
    }
    match account {
        None => Ok(None),
        Some(a) => if retained {
            Ok(None)
        } else {
            Ok(Some(a.storage_deposit))
        },
    }
}

/// The account is registered and holds at least `required` prepaid storage.
pub fn ensure_storage_at_least(account: Option<&Account>, required: u128, short: ContractError) -> (r:
    Result<(), ContractError>)
    ensures
        r == match account {
            None => Err(ContractError::AccountNotRegistered),
            Some(a) => if a.storage_deposit >= required {
                Ok(())
            } else {
                Err(short)
            },
        },
{
    match account {
        None => Err(ContractError::AccountNotRegistered),
        Some(a) => if a.storage_deposit >= required {
            Ok(())
        } else {
            Err(short)
        },
    }
}

/// Claim and withdraw paths only need the base registration deposit.
pub fn ensure_min_base_storage(account: Option<&Account>, config: &Config) -> (r: Result<(), ContractError>)
    ensures
        r == match account {
            None => Err(ContractError::AccountNotRegistered),
            Some(a) => if a.storage_deposit >= config.min_storage_deposit {
                Ok(())
            } else {
                Err(ContractError::StorageTopUp)
            },
        },
{
    ensure_storage_at_least(account, config.min_storage_deposit, ContractError::StorageTopUp)
}

/// Before creating a lock: prepaid storage for one more lock.
pub fn ensure_min_storage_for_new_lock(account: Option<&Account>, config: &Config, counts: &StorageCounts) -> (r:
    Result<(), ContractError>)
    ensures
        r == match account {
            None => Err(ContractError::AccountNotRegistered),
            Some(a) => if a.storage_deposit >= spec_required_storage(*config, *counts, 1, 0, 0) {
                Ok(())
            } else {
                Err(ContractError::StorageForLock)
            },
        },
{
    let need = required_storage_deposit_yocto(config, counts, 1, 0, 0);
    ensure_storage_at_least(account, need, ContractError::StorageForLock)
}

/// Before creating a purchase: prepaid storage for one more purchase.
pub fn ensure_min_storage_for_new_purchase(account: Option<&Account>, config: &Config, counts: &StorageCounts) -> (r:
    Result<(), ContractError>)
    ensures
        r == match account {
            None => Err(ContractError::AccountNotRegistered),
            Some(a) => if a.storage_deposit >= spec_required_storage(*config, *counts, 0, 1, 0) {
                Ok(())
            } else {
                Err(ContractError::StorageForPurchase)
            },
        },
{
    let need = required_storage_deposit_yocto(config, counts, 0, 1, 0);
    ensure_storage_at_least(account, need, ContractError::StorageForPurchase)
}

/// Before creating a farm position: prepaid storage for one more position.
pub fn ensure_min_storage_for_new_farm_position(
    account: Option<&Account>,
    config: &Config,
    counts: &StorageCounts,
) -> (r: Result<(), ContractError>)
    ensures
        r == match account {
            None => Err(ContractError::AccountNotRegistered),
            Some(a) => if a.storage_deposit >= spec_required_storage(*config, *counts, 0, 0, 1) {
                Ok(())
            } else {
                Err(ContractError::StorageForFarmPosition)
            },
        },
{
    let need = required_storage_deposit_yocto(config, counts, 0, 0, 1);
    ensure_storage_at_least(account, need, ContractError::StorageForFarmPosition)
}

} // verus!
