//! Catalog locks: the entry checks, the one-off and recurring-subscription paths, the commit that
//! mints pool shares for the locked NEAR, and unlocking.

use crate::catalog::{get_active_price_and_product, spec_active_price_and_product};
use crate::errors::ContractError;
use crate::ids::{next_lock_id, next_subscription_id, spec_id, spec_nonce_after, SUB_LOCK_SUFFIX_LEN};
use crate::pricing::sat_add;
use crate::storage::{ensure_min_storage_for_new_lock, spec_required_storage, StorageCounts};
use crate::subscriptions::{
    add_months_stripe_style, anchor_day_from_timestamp, project_subscription_view_now,
    spec_add_months, spec_anchor_day, spec_due_target_given, spec_projected_view,
    validate_subscription_target_amount,
};
use crate::types::{
    opt_ref, Account, AccountId, Config, Lock, LockId, LockStatus, OrderRef, PendingUnstakeTranche,
    Price, PriceId, PriceType, Product, ProductId, Subscription, SubscriptionId, SubscriptionStatus,
    Validator, ValidatorId, ValidatorStatus,
};
use crate::validators::{spec_stake_error, spec_stake_minted, spec_staked_validator, spec_unstake_error};
use vstd::prelude::*;

verus! {

/// Entry checks of a lock call: not paused, storage prepaid for one more lock, and at least the
/// minimum lock amount attached.
pub fn lock_entry_preamble(
    paused: bool,
    account: Option<&Account>,
    config: &Config,
    counts: &StorageCounts,
    locked: u128,
) -> (r: Result<(), ContractError>)
    ensures
        r == if paused {
            Err(ContractError::Paused)
        } else if account is None {
            Err(ContractError::AccountNotRegistered)
        } else if account.unwrap().storage_deposit < spec_required_storage(*config, *counts, 1, 0, 0) {
            Err(ContractError::StorageForLock)
        } else if locked < config.min_lock_amount {
            Err(ContractError::AttachedBelowMinLock)
        } else {
            Ok(())
        },
{
    if paused {
        return Err(ContractError::Paused);
    }
    match ensure_min_storage_for_new_lock(account, config, counts) {
        Ok(()) => {},
        Err(e) => {
            return Err(e);
        },
    }
    if locked < config.min_lock_amount {
        return Err(ContractError::AttachedBelowMinLock);
    }
    Ok(())
}

/// Which lock path a price takes.
#[derive(Clone, Copy, Debug, PartialEq, Eq, Structural)]
pub enum LockPath {
    OneOff { duration_ns: u64 },
    Recurring,
}

/// One-off prices need a duration, recurring prices must not name one, farm prices are staked
/// instead of locked.
pub fn lock_path(price_type: PriceType, duration_ns: Option<u64>) -> (r: Result<LockPath, ContractError>)
    ensures
        r == match price_type {
            PriceType::OneOff => match duration_ns {
                Some(d) => Ok(LockPath::OneOff { duration_ns: d }),
                None => Err(ContractError::DurationRequired),
            },
            PriceType::Recurring => if duration_ns is Some {
                Err(ContractError::DurationForbidden)
            } else {
                Ok(LockPath::Recurring)
            },
            PriceType::Farm => Err(ContractError::FarmPriceNeedsStake),
        },
{
    match price_type {
        PriceType::OneOff => match duration_ns {
            Some(d) => Ok(LockPath::OneOff { duration_ns: d }),
            None => Err(ContractError::DurationRequired),
        },
        PriceType::Recurring => if duration_ns.is_some() {
            Err(ContractError::DurationForbidden)
        } else {
            Ok(LockPath::Recurring)
        },
        PriceType::Farm => Err(ContractError::FarmPriceNeedsStake),
    }
}

/// The product's validator must be allowlisted and active.
pub fn check_validator_active_for_lock(validator: Option<&Validator>) -> (r: Result<(), ContractError>)
    ensures
        r == match validator {
            None => Err(ContractError::ValidatorNotFound),
            Some(v) => if v.status == ValidatorStatus::Active {
                Ok(())
            } else {
                Err(ContractError::ValidatorNotActiveForLock)
            },
        },
{
    match validator {
        None => Err(ContractError::ValidatorNotFound),
        Some(v) => v.check_active_for_lock(),
    }
}

/// Checks of a one-off lock: the duration within the configured range, a one-off price without
/// billing period, an active validator, and the price's lock weight met. Returns the order.
pub fn check_one_off_lock(
    config: &Config,
    price: &Price,
    product: &Product,
    validator: Option<&Validator>,
    locked: u128,
    duration_ns: u64,
) -> (r: Result<OrderRef, ContractError>)
    ensures
        r == if duration_ns < config.min_lock_duration_ns || duration_ns > config.max_lock_duration_ns {
            Err(ContractError::DurationOutOfRange)
        } else if price.price_type != PriceType::OneOff {
            Err(ContractError::NotOneOffPrice)
        } else if price.billing_period is Some {
            Err(ContractError::OneOffWithBillingPeriod)
        } else if validator is None {
            Err(ContractError::ValidatorNotFound)
        } else if validator.unwrap().status != ValidatorStatus::Active {
            Err(ContractError::ValidatorNotActiveForLock)
        } else if !price.spec_lock_ok(locked as int, duration_ns as int) {
            Err(ContractError::LockTooSmall)
        } else {
            Ok(OrderRef::ProductPurchase { product_id: product.product_id, price_id: price.price_id })
        },
{
    if duration_ns < config.min_lock_duration_ns || duration_ns > config.max_lock_duration_ns {
        return Err(ContractError::DurationOutOfRange);
    }
    match price.require_one_off() {
        Ok(()) => {},
        Err(e) => {
            return Err(e);
        },
    }
    match check_validator_active_for_lock(validator) {
        Ok(()) => {},
        Err(e) => {
            return Err(e);
        },
    }
    match price.check_near_price_lock(locked, duration_ns as u128) {
        Ok(()) => {},
        Err(e) => {
            return Err(e);
        },
    }
    Ok(
        OrderRef::ProductPurchase {
            product_id: product.product_id.clone(),
            price_id: price.price_id.clone(),
        },
    )
}

/// Checks of a recurring-subscription lock before settlement: a recurring monthly price, an
/// active validator, and a stake within the price bounds.
pub fn check_recurring_lock(price: &Price, validator: Option<&Validator>, locked: u128) -> (r: Result<
    (),
    ContractError,
>)
    ensures
        r == if price.price_type != PriceType::Recurring {
            Err(ContractError::NotRecurringPrice)
        } else if price.billing_period is None {
            Err(ContractError::NotMonthly)
        } else if validator is None {
            Err(ContractError::ValidatorNotFound)
        } else if validator.unwrap().status != ValidatorStatus::Active {
            Err(ContractError::ValidatorNotActiveForLock)
        } else if locked < price.amount {
            Err(ContractError::TargetBelowMinimum)
        } else if price.spec_max_amount() matches Some(m) && locked > m {
            Err(ContractError::TargetAboveMaximum)
        } else {
            Ok(())
        },
{
    match price.require_recurring_monthly() {
        Ok(()) => {},
        Err(e) => {
            return Err(e);
        },
    }
    match check_validator_active_for_lock(validator) {
        Ok(()) => {},
        Err(e) => {
            return Err(e);
        },
    }
    validate_subscription_target_amount(price, locked)
}

/// A fresh subscription starting at `start_ns` for one average month, anchored on its start day.
pub fn new_subscription_for_lock(
    subscription_id: SubscriptionId,
    buyer: &AccountId,
    product_id: &ProductId,
    price_id: &PriceId,
    start_ns: u64,
) -> (r: Subscription)
    ensures
        r.subscription_id == subscription_id,
        r.account_id == *buyer,
        r.product_id == *product_id,
        r.price_id == *price_id,
        r.start_ns == start_ns,
        r.end_ns == spec_add_months(1, start_ns as int),
        r.anchor_day == spec_anchor_day(start_ns as int),
        r.last_lock_id@ == Seq::<char>::empty(),
        r.status == SubscriptionStatus::Active,
        !r.cancel_at_period_end,
        r.pending_update is None,
{
    let anchor = anchor_day_from_timestamp(start_ns);
    let end_ns = add_months_stripe_style(anchor, 1, start_ns);
    Subscription {
        subscription_id,
        account_id: buyer.clone(),
        product_id: product_id.clone(),
        price_id: price_id.clone(),
        start_ns,
        end_ns,
        anchor_day: anchor,
        last_lock_id: String::new(),
        status: SubscriptionStatus::Active,
        cancel_at_period_end: false,
        pending_update: None,
    }
}

/// What a recurring lock does to the buyer's subscription for the product.
#[derive(Clone, Copy, Debug, PartialEq, Eq, Structural)]
pub enum RecurringLockKind {
    /// The current period is open and has no active lock: lock it.
    Current,
    /// The period ended on a renewing subscription: extend it by a month and lock that.
    Renewed,
    /// The period ended on a cancelled subscription: it is removed and a new one starts now.
    Replaced,
    /// No subscription yet: a new one starts now.
    New,
}

/// The billing period a recurring lock covers.
#[derive(Clone, Copy, Debug, PartialEq, Eq, Structural)]
pub struct RecurringLockPlan {
    pub kind: RecurringLockKind,
    pub start_ns: u64,
    pub end_ns: u64,
    /// Locked from the subscription's clock to the period end.
    pub duration_ns: u128,
}

/// The period and kind of a recurring lock, before the lock checks.
pub open spec fn spec_recurring_period(
    existing: Option<Subscription>,
    subscription_now: int,
    now: int,
) -> (RecurringLockKind, int, int, int) {
    match existing {
        None => (RecurringLockKind::New, now, spec_add_months(1, now), now),
        Some(sub) => if subscription_now < sub.end_ns {
            (RecurringLockKind::Current, sub.start_ns as int, sub.end_ns as int, subscription_now)
        } else if sub.cancel_at_period_end {
            (RecurringLockKind::Replaced, now, spec_add_months(1, now), now)
        } else {
            let start = if sub.end_ns >= subscription_now {
                sub.end_ns as int
            } else {
                subscription_now
            };
            (RecurringLockKind::Renewed, start, spec_add_months(1, start), subscription_now)
        },
    }
}

/// Decides a recurring-subscription lock after settlement: the price and product are active, the
/// price is recurring monthly, the product sits on the settled validator, which is active. A
/// buyer without a subscription for the product must not have it reserved by a pending update;
/// an existing subscription (its due update already applied) must be the buyer's, and an open
/// period must not already hold an active lock. The stake must be in the price bounds; renewing
/// keeps the tier and the stake of the previous lock; the period must not have ended and the
/// lock weight must hold for the rest of it.
pub open spec fn spec_recurring_lock_plan(
    buyer: Seq<char>,
    locked: int,
    price_id: Seq<char>,
    validator_id: Seq<char>,
    price: Option<Price>,
    product: Option<Product>,
    validator: Option<Validator>,
    existing: Option<Subscription>,
    prev_lock: Option<Lock>,
    reserved: bool,
    subscription_now: int,
    now: int,
) -> Result<RecurringLockPlan, ContractError> {
    let active = spec_active_price_and_product(price, product);
    if active is Err {
        Err(active->Err_0)
    } else {
        let p = price.unwrap();
        let q = product.unwrap();
        if p.price_type != PriceType::Recurring {
            Err(ContractError::NotRecurringPrice)
        } else if p.billing_period is None {
            Err(ContractError::NotMonthly)
        } else if q.validator_id@ != validator_id {
            Err(ContractError::CatalogValidatorMismatch)
        } else if validator is None {
            Err(ContractError::ValidatorNotFound)
        } else if validator.unwrap().status != ValidatorStatus::Active {
            Err(ContractError::ValidatorNotActiveForLock)
        } else if existing is None && reserved {
            Err(ContractError::TargetReservedByPendingUpdate)
        } else if existing matches Some(sub) && sub.account_id@ != buyer {
            Err(ContractError::NotSubscriptionOwner)
        } else if existing matches Some(sub) && subscription_now < sub.end_ns && (prev_lock matches Some(
            l,
        ) && l.status == LockStatus::Active) {
            Err(ContractError::PeriodAlreadyHasLock)
        } else {
            let (kind, start, end, clock) = spec_recurring_period(existing, subscription_now, now);
            let keeps = kind == RecurringLockKind::Current || kind == RecurringLockKind::Renewed;
            if locked < p.amount {
                Err(ContractError::TargetBelowMinimum)
            } else if p.spec_max_amount() matches Some(m) && locked > m {
                Err(ContractError::TargetAboveMaximum)
            } else if keeps && price_id != existing.unwrap().price_id@ {
                Err(ContractError::PriceNotCurrentTier)
            } else if keeps && (prev_lock matches Some(l) && locked != l.amount_near) {
                Err(ContractError::LockedMustMatchStake)
            } else if end <= clock {
                Err(ContractError::SubscriptionPeriodEnded)
            } else if !p.spec_lock_ok(locked, end - clock) {
                Err(ContractError::LockTooSmall)
            } else {
                Ok(
                    RecurringLockPlan {
                        kind,
                        start_ns: start as u64,
                        end_ns: end as u64,
                        duration_ns: (end - clock) as u128,
                    },
                )
            }
        }
    }
}

pub fn plan_recurring_subscription_lock(
    buyer: &AccountId,
    locked: u128,
    price_id: &PriceId,
    validator_id: &ValidatorId,
    price: Option<&Price>,
    product: Option<&Product>,
    validator: Option<&Validator>,
    existing: Option<&Subscription>,
    prev_lock: Option<&Lock>,
    reserved: bool,
    subscription_now: u64,
    now: u64,
) -> (r: Result<RecurringLockPlan, ContractError>)
    ensures
        r == spec_recurring_lock_plan(
            buyer@,
            locked as int,
            price_id@,
            validator_id@,
            opt_ref(price),
            opt_ref(product),
            opt_ref(validator),
            opt_ref(existing),
            opt_ref(prev_lock),
            reserved,
            subscription_now as int,
            now as int,
        ),
{
    match get_active_price_and_product(price, product) {
        Ok(()) => {},
        Err(e) => {
            return Err(e);
        },
    }
    let p = price.unwrap();
    let q = product.unwrap();
    match p.require_recurring_monthly() {
        Ok(()) => {},
        Err(e) => {
            return Err(e);
        },
    }
    if q.validator_id != *validator_id {
        return Err(ContractError::CatalogValidatorMismatch);
    }
    match check_validator_active_for_lock(validator) {
        Ok(()) => {},
        Err(e) => {
            return Err(e);
        },
    }
    let (kind, start, end, clock): (RecurringLockKind, u64, u64, u64) = match existing {
        None => {
            if reserved {
                return Err(ContractError::TargetReservedByPendingUpdate);
            }
            (RecurringLockKind::New, now, add_months_stripe_style(anchor_day_from_timestamp(now), 1, now), now)
        },
        Some(sub) => {
            if sub.account_id != *buyer {
                return Err(ContractError::NotSubscriptionOwner);
            }
            if subscription_now < sub.end_ns {
                match prev_lock {
                    Some(l) => if l.status == LockStatus::Active {
                        return Err(ContractError::PeriodAlreadyHasLock);
                    },
                    None => {},
                }
                (RecurringLockKind::Current, sub.start_ns, sub.end_ns, subscription_now)
            } else if sub.cancel_at_period_end {
                (
                    RecurringLockKind::Replaced,
                    now,
                    add_months_stripe_style(anchor_day_from_timestamp(now), 1, now),
                    now,
                )
            } else {
                let start = if sub.end_ns >= subscription_now {
                    sub.end_ns
                } else {
                    subscription_now
                };
                (
                    RecurringLockKind::Renewed,
                    start,
                    add_months_stripe_style(sub.anchor_day, 1, start),
                    subscription_now,
                )
            }
        },
    };
    match validate_subscription_target_amount(p, locked) {
        Ok(()) => {},
        Err(e) => {
            return Err(e);
        },
    }
    let keeps = match kind {
        RecurringLockKind::Current => true,
        RecurringLockKind::Renewed => true,
        _ => false,
    };
    if keeps {
        let sub = existing.unwrap();
        if *price_id != sub.price_id {
            return Err(ContractError::PriceNotCurrentTier);
        }
        match prev_lock {
            Some(l) => if locked != l.amount_near {
                return Err(ContractError::LockedMustMatchStake);
            },
            None => {},
        }
    }
    if end <= clock {
        return Err(ContractError::SubscriptionPeriodEnded);
    }
    let duration_ns: u128 = (end - clock) as u128;
    match p.check_near_price_lock(locked, duration_ns) {
        Ok(()) => {},
        Err(e) => {
            return Err(e);
        },
    }
    Ok(RecurringLockPlan { kind, start_ns: start, end_ns: end, duration_ns })
}

/// Everything a catalog lock commit writes.
#[derive(Debug)]
pub struct CatalogLockCommit {
    pub lock: Lock,
    /// The lock's price with one more use.
    pub price: Price,
    /// The lock's product with one more use.
    pub product: Product,
    /// The buyer's share balance on the validator after the mint.
    pub user_shares: u128,
    /// Locks the buyer has created, this one included.
    pub user_lock_count: u32,
    /// The subscription the lock belongs to, now pointing at it.
    pub subscription: Option<Subscription>,
}

pub open spec fn sat_inc_u32(x: u32) -> u32 {
    if x == u32::MAX {
        x
    } else {
        (x + 1) as u32
    }
}

pub open spec fn spec_order_price_id(order: OrderRef) -> PriceId {
    match order {
        OrderRef::ProductPurchase { price_id, .. } => price_id,
        OrderRef::Subscription { price_id, .. } => price_id,
    }
}

/// `now` plus the duration, saturating at the largest timestamp.
pub open spec fn spec_lock_end(now: int, duration_ns: int) -> int {
    let d = if duration_ns > u64::MAX {
        u64::MAX as int
    } else {
        duration_ns
    };
    if now + d > u64::MAX {
        u64::MAX as int
    } else {
        now + d
    }
}

/// Why committing a catalog lock is refused, if it is.
pub open spec fn spec_commit_lock_error(
    validator_id: Seq<char>,
    price: Option<Price>,
    product: Option<Product>,
    validator: Validator,
    locked: int,
) -> Option<ContractError> {
    let active = spec_active_price_and_product(price, product);
    if active is Err {
        Some(active->Err_0)
    } else if product.unwrap().validator_id@ != validator_id {
        Some(ContractError::CatalogValidatorMismatch)
    } else {
        spec_stake_error(validator, locked)
    }
}

/// Commits a catalog lock: re-checks the order's price and product (active, on this validator),
/// mints shares for the locked NEAR, creates the lock from `now` for the duration, counts one
/// more use of the price and product and one more lock of the buyer, and points the
/// subscription (if any) at the new lock. `price` and `product` are the records the order names.
pub fn commit_catalog_lock(
    buyer: &AccountId,
    locked: u128,
    duration_ns: u128,
    order: OrderRef,
    validator_id: &ValidatorId,
    price: Option<Price>,
    product: Option<Product>,
    validator: &mut Validator,
    user_shares: u128,
    user_lock_count: u32,
    subscription: Option<Subscription>,
    nonce: &mut u64,
    block_height: u64,
    now: u64,
    predecessor: &AccountId,
) -> (r: Result<CatalogLockCommit, ContractError>)
    ensures
        ({
            let err = spec_commit_lock_error(validator_id@, price, product, *old(validator), locked as int);
            let minted = spec_stake_minted(*old(validator), locked as int);
            &&& r is Err <==> err is Some
            &&& r matches Err(e) ==> err == Some(e)
            &&& r is Err ==> *final(validator) == *old(validator) && *final(nonce) == *old(nonce)
            &&& r matches Ok(c) ==> {
                &&& *final(validator) == spec_staked_validator(*old(validator), locked as int)
                &&& c.lock.lock_id@ == spec_id(
                    "lock",
                    SUB_LOCK_SUFFIX_LEN as nat,
                    *old(nonce),
                    block_height,
                    now,
                    predecessor@,
                )
                &&& *final(nonce) == if *old(nonce) == u64::MAX {
                    u64::MAX
                } else {
                    (*old(nonce) + 1) as u64
                }
                &&& c.lock.account_id == *buyer
                &&& c.lock.validator_id == *validator_id
                &&& c.lock.amount_near == locked
                &&& c.lock.shares == minted
                &&& c.lock.start_ns == now
                &&& c.lock.end_ns == spec_lock_end(now as int, duration_ns as int)
                &&& c.lock.order == order
                &&& c.lock.status == LockStatus::Active
                &&& c.price == (Price {
                    usage_count: crate::subscriptions::sat_inc_u64(price.unwrap().usage_count),
                    ..price.unwrap()
                })
                &&& c.product == (Product {
                    usage_count: crate::subscriptions::sat_inc_u64(product.unwrap().usage_count),
                    ..product.unwrap()
                })
                &&& c.user_shares == sat_add(user_shares as int, minted)
                &&& c.user_lock_count == sat_inc_u32(user_lock_count)
                &&& c.subscription == match subscription {
                    Some(s) => Some(Subscription { last_lock_id: c.lock.lock_id, ..s }),
                    None => None,
                }
            }
        }),
{
    match get_active_price_and_product(opt_as_ref_price(&price), opt_as_ref_product(&product)) {
        Ok(()) => {},
        Err(e) => {
            return Err(e);
        },
    }
    let mut price = price.unwrap();
    let mut product = product.unwrap();
    if product.validator_id != *validator_id {
        return Err(ContractError::CatalogValidatorMismatch);
    }
    let (new_shares, new_user_shares) = match crate::validators::internal_stake(
        validator,
        user_shares,
        locked,
    ) {
        Ok(x) => x,
        Err(e) => {
            return Err(e);
        },
    };
    let lock_id = next_lock_id(nonce, block_height, now, predecessor);
    let d: u64 = if duration_ns <= u64::MAX as u128 {
        duration_ns as u64
    } else {
        u64::MAX
    };
    let lock = Lock {
        lock_id: lock_id.clone(),
        account_id: buyer.clone(),
        validator_id: validator_id.clone(),
        amount_near: locked,
        shares: new_shares,
        start_ns: now,
        end_ns: now.saturating_add(d),
        order,
        status: LockStatus::Active,
    };
    price.usage_count = price.usage_count.saturating_add(1);
    product.usage_count = product.usage_count.saturating_add(1);
    let subscription = match subscription {
        Some(mut s) => {
            s.last_lock_id = lock_id;
            Some(s)
        },
        None => None,
    };
    Ok(
        CatalogLockCommit {
            lock,
            price,
            product,
            user_shares: new_user_shares,
            user_lock_count: user_lock_count.saturating_add(1),
            subscription,
        },
    )
}

fn opt_as_ref_price(p: &Option<Price>) -> (r: Option<&Price>)
    ensures
        opt_ref(r) == *p,
{
    match p {
        Some(x) => Some(x),
        None => None,
    }
}

fn opt_as_ref_product(p: &Option<Product>) -> (r: Option<&Product>)
    ensures
        opt_ref(r) == *p,
{
    match p {
        Some(x) => Some(x),
        None => None,
    }
}

/// The subscription a recurring lock is committed against: the existing one (renewed by a month
/// when its period ended) or a new one with the freshly generated id.
pub open spec fn spec_planned_subscription(
    plan: RecurringLockPlan,
    existing: Option<Subscription>,
    new_subscription: Subscription,
) -> Subscription {
    match plan.kind {
        RecurringLockKind::Current => existing.unwrap(),
        RecurringLockKind::Renewed => Subscription {
            start_ns: plan.start_ns,
            end_ns: plan.end_ns,
            status: SubscriptionStatus::Active,
            ..existing.unwrap()
        },
        _ => new_subscription,
    }
}

/// A recurring-subscription lock after settlement: plans it (see [`spec_recurring_lock_plan`]),
/// generates a subscription id when a new subscription starts, then commits the lock (see
/// [`commit_catalog_lock`]) for the planned duration with a subscription order over the period.
/// Returns the plan with the commit; for [`RecurringLockKind::Replaced`] the caller removes the
/// old subscription before storing the new one.
pub fn commit_recurring_subscription_lock_after_settle(
    buyer: &AccountId,
    locked: u128,
    price_id: &PriceId,
    validator_id: &ValidatorId,
    price: Option<Price>,
    product: Option<Product>,
    validator: &mut Validator,
    existing: Option<Subscription>,
    prev_lock: Option<&Lock>,
    reserved: bool,
    subscription_now: u64,
    user_shares: u128,
    user_lock_count: u32,
    nonce: &mut u64,
    block_height: u64,
    now: u64,
    predecessor: &AccountId,
) -> (r: Result<(RecurringLockPlan, CatalogLockCommit), ContractError>)
    ensures
        ({
            let plan = spec_recurring_lock_plan(
                buyer@,
                locked as int,
                price_id@,
                validator_id@,
                price,
                product,
                Some(*old(validator)),
                existing,
                opt_ref(prev_lock),
                reserved,
                subscription_now as int,
                now as int,
            );
            let err = spec_commit_lock_error(validator_id@, price, product, *old(validator), locked as int);
            &&& plan is Err ==> r == Err::<(RecurringLockPlan, CatalogLockCommit), ContractError>(
                plan->Err_0,
            )
            &&& (plan is Ok && err is Some) ==> r == Err::<(RecurringLockPlan, CatalogLockCommit), ContractError>(
                err.unwrap(),
            )
            &&& r is Err <==> (plan is Err || err is Some)
            &&& r is Err ==> *final(validator) == *old(validator)
            &&& plan is Err ==> *final(nonce) == *old(nonce)
            &&& (plan is Ok && err is Some) ==> *final(nonce) == spec_nonce_after(
                *old(nonce),
                if plan->Ok_0.kind == RecurringLockKind::New || plan->Ok_0.kind
                    == RecurringLockKind::Replaced {
                    1int
                } else {
                    0int
                },
            )
            &&& r matches Ok((pl, _)) ==> *final(nonce) == spec_nonce_after(
                *old(nonce),
                if pl.kind == RecurringLockKind::New || pl.kind == RecurringLockKind::Replaced {
                    2int
                } else {
                    1int
                },
            )
            &&& r matches Ok((pl, c)) ==> {
                &&& plan == Ok::<RecurringLockPlan, ContractError>(pl)
                &&& c.lock.account_id == *buyer
                &&& c.lock.validator_id == *validator_id
                &&& c.lock.status == LockStatus::Active
                &&& c.lock.start_ns == now
                &&& (pl.kind == RecurringLockKind::New || pl.kind == RecurringLockKind::Replaced)
                    ==> pl.end_ns > now
                &&& (pl.kind == RecurringLockKind::Current || pl.kind == RecurringLockKind::Renewed)
                    ==> pl.end_ns > subscription_now
                &&& c.lock.amount_near == locked
                &&& c.lock.shares == spec_stake_minted(*old(validator), locked as int)
                &&& c.lock.end_ns == spec_lock_end(now as int, pl.duration_ns as int)
                &&& *final(validator) == spec_staked_validator(*old(validator), locked as int)
                &&& c.subscription matches Some(s) && {
                    &&& s.last_lock_id == c.lock.lock_id
                    &&& s.start_ns == pl.start_ns
                    &&& s.end_ns == pl.end_ns
                    &&& pl.kind != RecurringLockKind::Current ==> s.status
                        == SubscriptionStatus::Active
                    &&& c.lock.order == (OrderRef::Subscription {
                        subscription_id: s.subscription_id,
                        price_id: *price_id,
                        period_start_ns: pl.start_ns,
                        period_end_ns: pl.end_ns,
                    })
                    &&& (pl.kind == RecurringLockKind::Current || pl.kind == RecurringLockKind::Renewed)
                        ==> s.subscription_id == existing.unwrap().subscription_id
                    &&& (pl.kind == RecurringLockKind::New || pl.kind == RecurringLockKind::Replaced)
                        ==> s.subscription_id@ == spec_id(
                        "sub",
                        SUB_LOCK_SUFFIX_LEN as nat,
                        *old(nonce),
                        block_height,
                        now,
                        predecessor@,
                    ) && s.account_id == *buyer && s.price_id == *price_id && s.product_id
                        == product.unwrap().product_id && !s.cancel_at_period_end
                        && s.pending_update is None
                }
            }
        }),
{
    let plan = match plan_recurring_subscription_lock(
        buyer,
        locked,
        price_id,
        validator_id,
        opt_as_ref_price(&price),
        opt_as_ref_product(&product),
        Some(&*validator),
        match &existing {
            Some(s) => Some(s),
            None => None,
        },
        prev_lock,
        reserved,
        subscription_now,
        now,
    ) {
        Ok(p) => p,
        Err(e) => {
            return Err(e);
        },
    };
    let product_id = product.as_ref().unwrap().product_id.clone();
    let subscription = match plan.kind {
        RecurringLockKind::Current => existing.unwrap(),
        RecurringLockKind::Renewed => {
            let mut s = existing.unwrap();
            s.start_ns = plan.start_ns;
            s.end_ns = plan.end_ns;
            s.status = SubscriptionStatus::Active;
            s
        },
        _ => {
            let sid = next_subscription_id(nonce, block_height, now, predecessor);
            new_subscription_for_lock(sid, buyer, &product_id, price_id, now)
        },
    };
    let order = OrderRef::Subscription {
        subscription_id: subscription.subscription_id.clone(),
        price_id: price_id.clone(),
        period_start_ns: subscription.start_ns,
        period_end_ns: subscription.end_ns,
    };
    match commit_catalog_lock(
        buyer,
        locked,
        plan.duration_ns,
        order,
        validator_id,
        price,
        product,
        validator,
        user_shares,
        user_lock_count,
        Some(subscription),
        nonce,
        block_height,
        now,
        predecessor,
    ) {
        Ok(c) => Ok((plan, c)),
        Err(e) => Err(e),
    }
}

/// An active auto-renewing subscription's lock stays until the subscription is cancelled: its
/// projected period must have ended. One-off locks and winding-down subscriptions are free.
pub fn assert_subscription_lock_can_unlock(
    lock: &Lock,
    sub: Option<Subscription>,
    now: u64,
    due_target_price: Option<&Price>,
) -> (r: Result<(), ContractError>)
    requires
        now < u64::MAX,
        sub matches Some(s) ==> spec_due_target_given(s, now as int, opt_ref(due_target_price)),
    ensures
        r == match (lock.order, sub) {
            (OrderRef::Subscription { .. }, Some(s)) => if s.status != SubscriptionStatus::Active
                || s.cancel_at_period_end {
                Ok(())
            } else if now >= spec_projected_view(s, now as int, opt_ref(due_target_price)).end_ns {
                Ok(())
            } else {
                Err(ContractError::SubscriptionLockActive)
            },
            _ => Ok(()),
        },
{
    let is_sub = match &lock.order {
        OrderRef::Subscription { .. } => true,
        OrderRef::ProductPurchase { .. } => false,
    };
    if !is_sub {
        return Ok(());
    }
    let s = match sub {
        Some(s) => s,
        None => {
            return Ok(());
        },
    };
    if s.status != SubscriptionStatus::Active || s.cancel_at_period_end {
        return Ok(());
    }
    let projected = project_subscription_view_now(s, now, due_target_price);
    if now >= projected.end_ns {
        Ok(())
    } else {
        Err(ContractError::SubscriptionLockActive)
    }
}

/// Entry checks of an unlock: one attached yocto, not paused, the caller's existing lock, still
/// active, not held by an active subscription, past its end, on an idle validator. Returns the
/// shares to exit.
pub fn check_unlock(
    attached: u128,
    paused: bool,
    caller: &AccountId,
    lock: Option<&Lock>,
    subscription_guard: Result<(), ContractError>,
    validator: Option<&Validator>,
    now: u64,
) -> (r: Result<u128, ContractError>)
    ensures
        r == if attached != 1 {
            Err(ContractError::OneYoctoRequired)
        } else if paused {
            Err(ContractError::Paused)
        } else {
            match lock {
                None => Err(ContractError::LockNotFound),
                Some(l) => if l.account_id@ != caller@ {
                    Err(ContractError::NotLockOwner)
                } else if l.status != LockStatus::Active {
                    Err(ContractError::LockNotActive)
                } else if subscription_guard is Err {
                    Err(subscription_guard->Err_0)
                } else if now < l.end_ns {
                    Err(ContractError::LockNotEnded)
                } else {
                    match validator {
                        None => Err(ContractError::ValidatorNotFound),
                        Some(v) => if v.tx_status != crate::types::TransactionStatus::Idle {
                            Err(ContractError::ValidatorBusy)
                        } else {
                            Ok(l.shares)
                        },
                    }
                },
            }
        },
{
    if attached != 1 {
        return Err(ContractError::OneYoctoRequired);
    }
    if paused {
        return Err(ContractError::Paused);
    }
    let l = match lock {
        Some(l) => l,
        None => {
            return Err(ContractError::LockNotFound);
        },
    };
    if l.account_id != *caller {
        return Err(ContractError::NotLockOwner);
    }
    if l.status != LockStatus::Active {
        return Err(ContractError::LockNotActive);
    }
    match subscription_guard {
        Ok(()) => {},
        Err(e) => {
            return Err(e);
        },
    }
    if now < l.end_ns {
        return Err(ContractError::LockNotEnded);
    }
    match validator {
        None => Err(ContractError::ValidatorNotFound),
        Some(v) => match v.check_idle() {
            Ok(()) => Ok(l.shares),
            Err(e) => Err(e),
        },
    }
}

/// Unlock after settlement: the lock must still be the same (owner, active, validator, shares);
/// its shares go to the unstake queue and it is marked for unlock. Returns the NEAR queued and
/// the account's remaining shares.
pub fn resolve_unlock(
    lock: &mut Lock,
    account_id: &AccountId,
    validator_id: &ValidatorId,
    shares_remove: u128,
    validator: &mut Validator,
    user_shares: u128,
    tranches: &mut Vec<PendingUnstakeTranche>,
    current_epoch: u64,
    settle_epochs: u64,
) -> (r: Result<(u128, u128), ContractError>)
    ensures
        ({
            let l = *old(lock);
            let pre = if l.account_id@ != account_id@ {
                Some(ContractError::UnlockOwnerChanged)
            } else if l.status != LockStatus::Active {
                Some(ContractError::LockNoLongerActive)
            } else if l.validator_id@ != validator_id@ {
                Some(ContractError::ValidatorMismatch)
            } else if l.shares != shares_remove {
                Some(ContractError::LockSharesChanged)
            } else {
                spec_unstake_error(*old(validator), user_shares as int, shares_remove as int)
            };
            &&& r is Err <==> pre is Some
            &&& r matches Err(e) ==> pre == Some(e)
            &&& r is Err ==> *final(lock) == l
            &&& r is Ok ==> *final(lock) == (Lock { status: LockStatus::UnlockRequested, ..l })
            &&& r matches Ok((near, remaining)) ==> near == crate::validators::spec_unstake_near(
                *old(validator),
                shares_remove as int,
            ) && remaining == user_shares - shares_remove
        }),
        r is Err ==> *final(validator) == *old(validator) && final(tranches)@ == old(tranches)@,
        r is Ok ==> crate::validators::spec_unstaked(
            *old(validator),
            *final(validator),
            old(tranches)@,
            final(tranches)@,
            *account_id,
            shares_remove as int,
            current_epoch as int,
            settle_epochs as int,
        ),
{
    if lock.account_id != *account_id {
        return Err(ContractError::UnlockOwnerChanged);
    }
    if lock.status != LockStatus::Active {
        return Err(ContractError::LockNoLongerActive);
    }
    if lock.validator_id != *validator_id {
        return Err(ContractError::ValidatorMismatch);
    }
    if lock.shares != shares_remove {
        return Err(ContractError::LockSharesChanged);
    }
    let out = match crate::validators::internal_unstake(
        validator,
        user_shares,
        tranches,
        account_id,
        shares_remove,
        current_epoch,
        settle_epochs,
    ) {
        Ok(x) => x,
        Err(e) => {
            return Err(e);
        },
    };
    lock.status = LockStatus::UnlockRequested;
    Ok(out)
}

} // verus!
