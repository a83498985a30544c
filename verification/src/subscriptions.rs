//! Subscription billing: linear average-month periods, the projected billing window, and the
//! plan / stake update decision table.

use crate::catalog::{get_active_price_and_product, spec_active_price_and_product};
use crate::errors::ContractError;
use crate::pricing::{sat_sub, AVG_MONTH_NS, NS_PER_DAY_TIMESTAMP};
use crate::pricing::{mul_div_floor, near_from_shares, sat_add, spec_near_from_shares};
use crate::types::{
    opt_ref, Lock, OrderRef, PendingSubscriptionUpdate, Price, PriceId, Product, ProductId,
    Subscription, SubscriptionId, LockId, SubscriptionPlanChangeOutcome, SubscriptionStatus,
    Validator, AccountId, LockStatus, PendingUnstakeTranche, PriceType, ValidatorId,
};
use crate::validators::{
    spec_stake_error, spec_stake_minted, spec_staked_validator, spec_unstake_error, spec_unstake_near,
};
use vstd::prelude::*;

verus! {

/// `from_ns` plus `months` average months, saturating at the largest timestamp.
pub open spec fn spec_add_months(months: int, from_ns: int) -> int {
    if from_ns + months * (AVG_MONTH_NS as int) > u64::MAX {
        u64::MAX as int
    } else {
        from_ns + months * (AVG_MONTH_NS as int)
    }
}

/// Months stack: extending by `m1` and then by `m2` months lands where extending by `m1 + m2`
/// months does, saturation included.
pub proof fn lemma_month_stack(m1: nat, m2: nat, from_ns: u64)
    ensures
        spec_add_months(m2 as int, spec_add_months(m1 as int, from_ns as int)) == spec_add_months(
            (m1 + m2) as int,
            from_ns as int,
        ),
{
    assert((m1 + m2) * (AVG_MONTH_NS as int) == m1 * (AVG_MONTH_NS as int) + m2 * (AVG_MONTH_NS as int))
        by (nonlinear_arith);
    assert(m2 * (AVG_MONTH_NS as int) >= 0) by (nonlinear_arith);
    assert(m1 * (AVG_MONTH_NS as int) >= 0) by (nonlinear_arith);
}

/// Extends `from_ns` by `months` average Gregorian months (a linear approximation). The billing
/// anchor day is carried for callers but does not move the result.
pub fn add_months_stripe_style(anchor_day: u8, months: u32, from_ns: u64) -> (r: u64)
    ensures
        r == spec_add_months(months as int, from_ns as int),
{
    let _anchor_day = if anchor_day < 1 {
        1
    } else if anchor_day > 31 {
        31
    } else {
        anchor_day
    };
    assert((months as u128) * AVG_MONTH_NS <= 0xffff_ffffu128 * AVG_MONTH_NS) by (nonlinear_arith)
        requires
            months <= 0xffff_ffffu32,
    ;
    let add_ns: u128 = (months as u128) * AVG_MONTH_NS;
    let add_u64: u64 = if add_ns <= u64::MAX as u128 {
        add_ns as u64
    } else {
        u64::MAX
    };
    from_ns.saturating_add(add_u64)
}

/// Billing anchor day (1 to 31): a stable fingerprint of the day count since the epoch.
pub open spec fn spec_anchor_day(ts: int) -> int {
    (ts / (NS_PER_DAY_TIMESTAMP as int)) % 31 + 1
}

pub fn anchor_day_from_timestamp(ts: u64) -> (r: u8)
    ensures
        r == spec_anchor_day(ts as int),
        1 <= r <= 31,
{
    let d: u64 = (ts / NS_PER_DAY_TIMESTAMP) % 31;
    let a: u8 = (d as u8) + 1;
    if a < 31 {
        a
    } else {
        31
    }
}

/// The one-month window reached by stepping from `start` until it holds `now`.
pub open spec fn spec_window(start: int, now: int) -> (int, int)
    decreases now - start,
{
    let end = spec_add_months(1, start);
    if now >= end && end > start {
        spec_window(end, now)
    } else {
        (start, end)
    }
}

/// Steps `start` forward one average month at a time until the window `[start, end)` holds `now`.
pub fn projected_subscription_window_from(anchor_day: u8, start: u64, now: u64) -> (r: (u64, u64))
    requires
        now < u64::MAX,
    ensures
        r.0 == spec_window(start as int, now as int).0,
        r.1 == spec_window(start as int, now as int).1,
{
    let mut s: u64 = start;
    let mut end: u64 = add_months_stripe_style(anchor_day, 1, s);
    while now >= end
        invariant
            now < u64::MAX,
            end == spec_add_months(1, s as int),
            spec_window(start as int, now as int) == spec_window(s as int, now as int),
        decreases now - s,
    {
        s = end;
        end = add_months_stripe_style(anchor_day, 1, s);
    }
    (s, end)
}

/// The projected window is one average month long, lies on the billing grid started at `start`,
/// and holds `now` whenever the subscription has begun by then.
pub proof fn lemma_window_contains_now(start: u64, now: u64)
    requires
        now < u64::MAX,
    ensures
        ({
            let w = spec_window(start as int, now as int);
            &&& w.1 == spec_add_months(1, w.0)
            &&& now < w.1
            &&& w.0 >= start
            &&& (start <= now ==> w.0 <= now)
            &&& (w.0 - start) % (AVG_MONTH_NS as int) == 0
        }),
    decreases now - start,
{
    lemma_window_grid(start as int, start as int, now as int);
}

proof fn lemma_window_grid(origin: int, s: int, now: int)
    requires
        0 <= origin <= s <= u64::MAX,
        now < u64::MAX,
        (s - origin) % (AVG_MONTH_NS as int) == 0,
        origin <= now ==> s <= now,
    ensures
        ({
            let w = spec_window(s, now);
            &&& w.1 == spec_add_months(1, w.0)
            &&& now < w.1
            &&& w.0 >= s
            &&& (origin <= now ==> w.0 <= now)
            &&& (w.0 - origin) % (AVG_MONTH_NS as int) == 0
        }),
    decreases now - s,
{
    let end = spec_add_months(1, s);
    if now >= end && end > s {
        assert(end == s + AVG_MONTH_NS);
        assert((end - origin) % (AVG_MONTH_NS as int) == 0) by {
            vstd::arithmetic::div_mod::lemma_mod_add_multiples_vanish(
                s - origin,
                AVG_MONTH_NS as int,
            );
        }
        lemma_window_grid(origin, end, now);
    }
}

/// A due pending update: the subscription renews and the update's time has come.
pub open spec fn spec_update_due(sub: Subscription, now: int) -> bool {
    &&& sub.status == SubscriptionStatus::Active
    &&& !sub.cancel_at_period_end
    &&& sub.pending_update matches Some(p) && now >= p.apply_ns
}

/// `sub` with a due pending update's plan applied and the pending update cleared.
pub open spec fn spec_apply_due_fields(sub: Subscription, target_price: Option<Price>) -> Subscription {
    match sub.pending_update {
        Some(p) => match p.target_price_id {
            Some(tid) => Subscription {
                product_id: target_price.unwrap().product_id,
                price_id: tid,
                pending_update: None,
                ..sub
            },
            None => Subscription { pending_update: None, ..sub },
        },
        None => sub,
    }
}

/// The view of a subscription at `now`: a renewing subscription rolls its window forward to the
/// period holding `now`, taking a due pending plan change first. Cancelling or inactive
/// subscriptions are shown as stored.
pub open spec fn spec_projected_view(sub: Subscription, now: int, target_price: Option<Price>) -> Subscription {
    if sub.status != SubscriptionStatus::Active || sub.cancel_at_period_end {
        sub
    } else {
        let due = spec_update_due(sub, now);
        let base = if due {
            spec_apply_due_fields(sub, target_price)
        } else {
            sub
        };
        let from = if due {
            sub.pending_update.unwrap().apply_ns as int
        } else {
            sub.start_ns as int
        };
        let w = spec_window(from, now);
        Subscription { start_ns: w.0 as u64, end_ns: w.1 as u64, ..base }
    }
}

/// The record a due update's plan change needs: the target price itself.
pub open spec fn spec_due_target_given(sub: Subscription, now: int, target_price: Option<Price>) -> bool {
    spec_update_due(sub, now) ==> match sub.pending_update.unwrap().target_price_id {
        Some(tid) => target_price matches Some(tp) && tp.price_id@ == tid@,
        None => true,
    }
}

/// Projects a stored subscription to `now` (see [`spec_projected_view`]). `target_price` is the
/// price a due pending plan change names.
pub fn project_subscription_view_now(sub: Subscription, now: u64, target_price: Option<&Price>) -> (r:
    Subscription)
    requires
        now < u64::MAX,
        spec_due_target_given(sub, now as int, opt_ref(target_price)),
    ensures
        r == spec_projected_view(sub, now as int, opt_ref(target_price)),
{
    let mut sub = sub;
    if sub.status != SubscriptionStatus::Active || sub.cancel_at_period_end {
        return sub;
    }
    let ghost orig = sub;
    let mut from: u64 = sub.start_ns;
    let due = match &sub.pending_update {
        Some(p) => now >= p.apply_ns,
        None => false,
    };
    if due {
        let (apply_ns, tid) = match &sub.pending_update {
            Some(p) => (p.apply_ns, p.target_price_id.clone()),
            None => (0, None),
        };
        from = apply_ns;
        match tid {
            Some(tid) => {
                let tp = target_price.unwrap();
                sub.product_id = tp.product_id.clone();
                sub.price_id = tid;
            },
            None => {},
        }
        sub.pending_update = None;
        assert(sub == spec_apply_due_fields(orig, opt_ref(target_price)));
    }
    let (s, e) = projected_subscription_window_from(sub.anchor_day, from, now);
    sub.start_ns = s;
    sub.end_ns = e;
    sub
}

pub fn assert_subscription_active(sub: &Subscription) -> (r: Result<(), ContractError>)
    ensures
        r == if sub.status == SubscriptionStatus::Active {
            Ok(())
        } else {
            Err(ContractError::SubscriptionNotActive)
        },
{
    if sub.status == SubscriptionStatus::Active {
        Ok(())
    } else {
        Err(ContractError::SubscriptionNotActive)
    }
}

/// A subscription stake must be at least the price amount and at most its `max_amount`, if any.
pub fn validate_subscription_target_amount(price: &Price, target_amount: u128) -> (r: Result<
    (),
    ContractError,
>)
    ensures
        r == if target_amount < price.amount {
            Err(ContractError::TargetBelowMinimum)
        } else if price.spec_max_amount() matches Some(m) && target_amount > m {
            Err(ContractError::TargetAboveMaximum)
        } else {
            Ok(())
        },
{
    if target_amount < price.amount {
        return Err(ContractError::TargetBelowMinimum);
    }
    match price.max_amount() {
        Some(m) => if target_amount > m {
            Err(ContractError::TargetAboveMaximum)
        } else {
            Ok(())
        },
        None => Ok(()),
    }
}

/// `price` accepts a stake of `amount` held for `duration_ns`: within its amount bounds and
/// meeting its lock weight.
pub open spec fn spec_supports(price: Price, amount: int, duration_ns: int) -> bool {
    &&& amount >= price.amount
    &&& (price.spec_max_amount() matches Some(m) ==> amount <= m)
    &&& price.spec_lock_ok(amount, duration_ns)
}

pub fn price_supports_amount_for_duration(price: &Price, amount: u128, duration_ns: u128) -> (r: bool)
    ensures
        r == spec_supports(*price, amount as int, duration_ns as int),
{
    if amount < price.amount {
        return false;
    }
    match price.max_amount() {
        Some(m) => if amount > m {
            return false;
        },
        None => {},
    }
    price.check_near_price_lock(amount, duration_ns).is_ok()
}

/// Stop renewing after the current period: the subscription (already projected to now) must be
/// active; any pending update is dropped.
pub fn cancel_subscription(sub: &mut Subscription) -> (r: Result<(), ContractError>)
    ensures
        old(sub).status != SubscriptionStatus::Active ==> r == Err::<(), ContractError>(
            ContractError::SubscriptionNotActive,
        ) && *final(sub) == *old(sub),
        old(sub).status == SubscriptionStatus::Active ==> r is Ok && *final(sub) == (Subscription {
            pending_update: None,
            cancel_at_period_end: true,
            ..*old(sub)
        }),
{
    if sub.status != SubscriptionStatus::Active {
        return Err(ContractError::SubscriptionNotActive);
    }
    sub.pending_update = None;
    sub.cancel_at_period_end = true;
    Ok(())
}

/// Undo a cancellation before the current period ends.
pub fn resume_subscription(sub: &mut Subscription, now: u64) -> (r: Result<(), ContractError>)
    ensures
        r == if old(sub).status != SubscriptionStatus::Active {
            Err(ContractError::SubscriptionNotActive)
        } else if !old(sub).cancel_at_period_end {
            Err(ContractError::NotCancelling)
        } else if now >= old(sub).end_ns {
            Err(ContractError::PeriodEnded)
        } else {
            Ok(())
        },
        r is Err ==> *final(sub) == *old(sub),
        r is Ok ==> *final(sub) == (Subscription { cancel_at_period_end: false, ..*old(sub) }),
{
    if sub.status != SubscriptionStatus::Active {
        return Err(ContractError::SubscriptionNotActive);
    }
    if !sub.cancel_at_period_end {
        return Err(ContractError::NotCancelling);
    }
    if now >= sub.end_ns {
        return Err(ContractError::PeriodEnded);
    }
    sub.cancel_at_period_end = false;
    Ok(())
}

/// The price a pending update will switch to, if any.
pub open spec fn spec_pending_target_price_id(sub: Subscription) -> Option<PriceId> {
    match sub.pending_update {
        Some(p) => p.target_price_id,
        None => None,
    }
}

pub fn pending_update_target_price_id(sub: &Subscription) -> (r: Option<PriceId>)
    ensures
        r == spec_pending_target_price_id(*sub),
{
    match &sub.pending_update {
        Some(p) => p.target_price_id.clone(),
        None => None,
    }
}

/// Reference count after one more reference (saturating).
pub fn count_after_increment(current: Option<u32>) -> (r: u32)
    ensures
        r == match current {
            Some(c) => if c == u32::MAX {
                u32::MAX as int
            } else {
                c + 1
            },
            None => 1,
        },
{
    match current {
        Some(c) => c.saturating_add(1),
        None => 1,
    }
}

/// Reference count after one reference is dropped; `None` removes the entry.
pub fn count_after_decrement(current: Option<u32>) -> (r: Option<Option<u32>>)
    ensures
        r == match current {
            None => None::<Option<u32>>,
            Some(c) => if c <= 1 {
                Some(None::<u32>)
            } else {
                Some(Some((c - 1) as u32))
            },
        },
{
    match current {
        None => None,
        Some(c) => if c <= 1 {
            Some(None)
        } else {
            Some(Some(c - 1))
        },
    }
}

/// Copies the subscription's current window (and, for its own subscription order, its price)
/// onto the lock.
pub open spec fn spec_synced_lock(lock: Lock, sub: Subscription) -> Lock {
    let order = match lock.order {
        OrderRef::Subscription { subscription_id, price_id, period_start_ns, period_end_ns } => {
            if subscription_id@ == sub.subscription_id@ {
                OrderRef::Subscription {
                    subscription_id,
                    price_id: sub.price_id,
                    period_start_ns: sub.start_ns,
                    period_end_ns: sub.end_ns,
                }
            } else {
                lock.order
            }
        },
        OrderRef::ProductPurchase { .. } => lock.order,
    };
    Lock { start_ns: sub.start_ns, end_ns: sub.end_ns, order, ..lock }
}

pub fn sync_lock_window_fields(lock: &mut Lock, sub: &Subscription)
    ensures
        *final(lock) == spec_synced_lock(*old(lock), *sub),
{
    lock.start_ns = sub.start_ns;
    lock.end_ns = sub.end_ns;
    let same = match &lock.order {
        OrderRef::Subscription { subscription_id, .. } => *subscription_id == sub.subscription_id,
        OrderRef::ProductPurchase { .. } => false,
    };
    if same {
        let sid = match &lock.order {
            OrderRef::Subscription { subscription_id, .. } => subscription_id.clone(),
            OrderRef::ProductPurchase { .. } => sub.subscription_id.clone(),
        };
        lock.order = OrderRef::Subscription {
            subscription_id: sid,
            price_id: sub.price_id.clone(),
            period_start_ns: sub.start_ns,
            period_end_ns: sub.end_ns,
        };
    }
}

/// The subscription's lock, when it is the owner's and still active, follows the subscription
/// window.
pub fn sync_subscription_lock_window(lock: &mut Lock, sub: &Subscription)
    ensures
        (old(lock).account_id@ == sub.account_id@ && old(lock).status
            == crate::types::LockStatus::Active) ==> *final(lock) == spec_synced_lock(*old(lock), *sub),
        !(old(lock).account_id@ == sub.account_id@ && old(lock).status
            == crate::types::LockStatus::Active) ==> *final(lock) == *old(lock),
{
    if lock.account_id == sub.account_id && lock.status == crate::types::LockStatus::Active {
        sync_lock_window_fields(lock, sub);
    }
}

/// What an update call changes now and what it schedules for the period end.
#[derive(Clone, Copy, Debug, PartialEq, Eq, Structural)]
pub struct SubscriptionUpdateDecision {
    pub immediate_plan_change: bool,
    /// Extra stake attached and locked now.
    pub immediate_stake_increase: Option<u128>,
    pub pending_plan_change: bool,
    /// Stake the subscription drops to at the period end.
    pub pending_stake_decrease_target: Option<u128>,
    pub pending_apply_ns: Option<u64>,
}

impl SubscriptionUpdateDecision {
    pub open spec fn spec_has_immediate(&self) -> bool {
        self.immediate_plan_change || self.immediate_stake_increase is Some
    }

    pub open spec fn spec_has_pending(&self) -> bool {
        self.pending_plan_change || self.pending_stake_decrease_target is Some
    }

    pub fn has_immediate_change(&self) -> (r: bool)
        ensures
            r == self.spec_has_immediate(),
    {
        self.immediate_plan_change || self.immediate_stake_increase.is_some()
    }

    pub fn has_pending_change(&self) -> (r: bool)
        ensures
            r == self.spec_has_pending(),
    {
        self.pending_plan_change || self.pending_stake_decrease_target.is_some()
    }
}

/// The update decision table. Plan and stake move independently: a stake increase is applied
/// now, a decrease waits for the period end. A plan change to an equal or dearer price is
/// immediate unless a decrease is pending and the new price cannot carry the current stake for
/// the rest of the period; a cheaper plan waits for the period end. What changes now must meet
/// the lock weight for the remaining period; what is scheduled must meet it for a month.
pub open spec fn spec_update_decision(
    sub_price_id: Seq<char>,
    sub_end_ns: int,
    current_price: Price,
    target_price: Price,
    current_amount: int,
    now_ns: int,
    target_price_id: Seq<char>,
    target_amount: int,
) -> Result<SubscriptionUpdateDecision, ContractError> {
    let plan_changes = target_price_id != sub_price_id;
    let rem_ns = sat_sub(sub_end_ns, now_ns);
    let increase = target_amount > current_amount;
    let decrease = target_amount < current_amount;
    let immediate_plan = plan_changes && target_price.amount >= current_price.amount && (decrease
        ==> spec_supports(target_price, current_amount, rem_ns));
    let pending_plan = plan_changes && !immediate_plan;
    let immediate_ok = (immediate_plan || increase) ==> (if immediate_plan {
        target_price
    } else {
        current_price
    }).spec_lock_ok(
        if increase {
            target_amount
        } else {
            current_amount
        },
        rem_ns,
    );
    let pending_ok = (pending_plan || decrease) ==> target_price.spec_lock_ok(
        target_amount,
        AVG_MONTH_NS as int,
    );
    if immediate_ok && pending_ok {
        Ok(
            SubscriptionUpdateDecision {
                immediate_plan_change: immediate_plan,
                immediate_stake_increase: if increase {
                    Some((target_amount - current_amount) as u128)
                } else {
                    None
                },
                pending_plan_change: pending_plan,
                pending_stake_decrease_target: if decrease {
                    Some(target_amount as u128)
                } else {
                    None
                },
                pending_apply_ns: if pending_plan || decrease {
                    Some(sub_end_ns as u64)
                } else {
                    None
                },
            },
        )
    } else {
        Err(ContractError::LockTooSmall)
    }
}

/// Decides an update of `sub` (projected to `now_ns`, currently staking `current_amount` on
/// `current_price`) to `target_price` with `target_amount` staked.
pub fn build_subscription_update_decision(
    sub: &Subscription,
    current_price: &Price,
    target_price: &Price,
    current_amount: u128,
    now_ns: u64,
    target_price_id: &PriceId,
    target_amount: u128,
) -> (r: Result<SubscriptionUpdateDecision, ContractError>)
    ensures
        r == spec_update_decision(
            sub.price_id@,
            sub.end_ns as int,
            *current_price,
            *target_price,
            current_amount as int,
            now_ns as int,
            target_price_id@,
            target_amount as int,
        ),
{
    let plan_changes = *target_price_id != sub.price_id;
    let rem_ns: u128 = sub.end_ns.saturating_sub(now_ns) as u128;
    let increase = target_amount > current_amount;
    let decrease = target_amount < current_amount;
    let immediate_stake_increase: Option<u128> = if increase {
        Some(target_amount - current_amount)
    } else {
        None
    };
    let pending_stake_decrease_target: Option<u128> = if decrease {
        Some(target_amount)
    } else {
        None
    };
    let immediate_plan_change = if !plan_changes {
        false
    } else if target_price.amount >= current_price.amount {
        if decrease {
            price_supports_amount_for_duration(target_price, current_amount, rem_ns)
        } else {
            true
        }
    } else {
        false
    };
    let pending_plan_change = plan_changes && !immediate_plan_change;
    if immediate_plan_change || increase {
        let immediate_price = if immediate_plan_change {
            target_price
        } else {
            current_price
        };
        let immediate_amount = if increase {
            target_amount
        } else {
            current_amount
        };
        if immediate_price.check_near_price_lock(immediate_amount, rem_ns).is_err() {
            return Err(ContractError::LockTooSmall);
        }
    }
    if pending_plan_change || decrease {
        if target_price.check_near_price_lock(target_amount, AVG_MONTH_NS).is_err() {
            return Err(ContractError::LockTooSmall);
        }
    }
    Ok(
        SubscriptionUpdateDecision {
            immediate_plan_change,
            immediate_stake_increase,
            pending_plan_change,
            pending_stake_decrease_target,
            pending_apply_ns: if pending_plan_change || decrease {
                Some(sub.end_ns)
            } else {
                None
            },
        },
    )
}

/// A decided update never both raises and lowers the stake, never both changes and schedules
/// the plan, schedules exactly when something is pending, and schedules for the period end.
pub proof fn lemma_update_decision_shape(
    sub_price_id: Seq<char>,
    sub_end_ns: u64,
    current_price: Price,
    target_price: Price,
    current_amount: u128,
    now_ns: u64,
    target_price_id: Seq<char>,
    target_amount: u128,
)
    ensures
        spec_update_decision(
            sub_price_id,
            sub_end_ns as int,
            current_price,
            target_price,
            current_amount as int,
            now_ns as int,
            target_price_id,
            target_amount as int,
        ) matches Ok(d) ==> {
            &&& !(d.immediate_stake_increase is Some && d.pending_stake_decrease_target is Some)
            &&& !(d.immediate_plan_change && d.pending_plan_change)
            &&& (d.immediate_plan_change || d.pending_plan_change) <==> target_price_id
                != sub_price_id
            &&& (d.pending_apply_ns is Some <==> d.spec_has_pending())
            &&& (d.pending_apply_ns matches Some(t) ==> t == sub_end_ns)
            &&& (target_amount == current_amount ==> !d.spec_has_pending() || d.pending_plan_change)
        },
{
}

/// A plan change takes effect now exactly when the target price is not cheaper than the current
/// one and, if the stake goes down, the target price can carry the current stake for the rest of
/// the period (at least its amount, within its maximum, and meeting its lock weight); otherwise
/// it waits for the period end. A raised stake is added now by the difference; a lowered stake
/// waits for the period end, when anything waits.
pub proof fn lemma_plan_change_waits_unless_target_carries_stake(
    sub_price_id: Seq<char>,
    sub_end_ns: u64,
    current_price: Price,
    target_price: Price,
    current_amount: u128,
    now_ns: u64,
    target_price_id: Seq<char>,
    target_amount: u128,
)
    ensures
        spec_update_decision(
            sub_price_id,
            sub_end_ns as int,
            current_price,
            target_price,
            current_amount as int,
            now_ns as int,
            target_price_id,
            target_amount as int,
        ) matches Ok(d) ==> {
            let rem = if sub_end_ns >= now_ns {
                sub_end_ns - now_ns
            } else {
                0
            };
            let carries = current_amount >= target_price.amount && (target_price.spec_max_amount()
                matches Some(m) ==> current_amount <= m) && target_price.spec_lock_ok(
                current_amount as int,
                rem as int,
            );
            &&& d.immediate_plan_change <==> (target_price_id != sub_price_id
                && target_price.amount >= current_price.amount && (target_amount < current_amount
                ==> carries))
            &&& d.pending_plan_change <==> (target_price_id != sub_price_id
                && !d.immediate_plan_change)
            &&& d.pending_plan_change ==> d.pending_apply_ns == Some(sub_end_ns)
            &&& d.immediate_stake_increase == if target_amount > current_amount {
                Some((target_amount - current_amount) as u128)
            } else {
                None
            }
            &&& d.pending_stake_decrease_target == if target_amount < current_amount {
                Some(target_amount)
            } else {
                None
            }
            &&& d.pending_apply_ns == if d.pending_plan_change || target_amount < current_amount {
                Some(sub_end_ns)
            } else {
                None
            }
        },
{
}

/// How an update call is reported.
#[derive(Clone, Copy, Debug, PartialEq, Eq, Structural)]
pub enum SubscriptionUpdateKind {
    NoOp,
    ChangedImmediately,
    ScheduledForPeriodEnd,
    ChangedImmediatelyAndScheduledForPeriodEnd,
}

pub open spec fn spec_kind_text(kind: SubscriptionUpdateKind) -> &'static str {
    match kind {
        SubscriptionUpdateKind::NoOp => "no_op",
        SubscriptionUpdateKind::ChangedImmediately => "changed_immediately",
        SubscriptionUpdateKind::ScheduledForPeriodEnd => "scheduled_for_period_end",
        SubscriptionUpdateKind::ChangedImmediatelyAndScheduledForPeriodEnd => "changed_immediately_and_scheduled_for_period_end",
    }
}

impl SubscriptionUpdateKind {
    pub fn as_str(&self) -> (r: &'static str)
        ensures
            r@ == spec_kind_text(*self)@,
    {
        match self {
            SubscriptionUpdateKind::NoOp => "no_op",
            SubscriptionUpdateKind::ChangedImmediately => "changed_immediately",
            SubscriptionUpdateKind::ScheduledForPeriodEnd => "scheduled_for_period_end",
            SubscriptionUpdateKind::ChangedImmediatelyAndScheduledForPeriodEnd => "changed_immediately_and_scheduled_for_period_end",
        }
    }
}

pub open spec fn spec_update_kind(d: SubscriptionUpdateDecision) -> SubscriptionUpdateKind {
    if d.spec_has_immediate() && d.spec_has_pending() {
        SubscriptionUpdateKind::ChangedImmediatelyAndScheduledForPeriodEnd
    } else if d.spec_has_immediate() {
        SubscriptionUpdateKind::ChangedImmediately
    } else if d.spec_has_pending() {
        SubscriptionUpdateKind::ScheduledForPeriodEnd
    } else {
        SubscriptionUpdateKind::NoOp
    }
}

pub fn subscription_update_kind(decision: &SubscriptionUpdateDecision) -> (r: SubscriptionUpdateKind)
    ensures
        r == spec_update_kind(*decision),
{
    match (decision.has_immediate_change(), decision.has_pending_change()) {
        (false, false) => SubscriptionUpdateKind::NoOp,
        (true, false) => SubscriptionUpdateKind::ChangedImmediately,
        (false, true) => SubscriptionUpdateKind::ScheduledForPeriodEnd,
        (true, true) => SubscriptionUpdateKind::ChangedImmediatelyAndScheduledForPeriodEnd,
    }
}

/// The report of an update call. A scheduled decrease is reported as the stake to be released.
pub fn subscription_update_outcome(
    kind: SubscriptionUpdateKind,
    subscription_id: SubscriptionId,
    target_price_id: PriceId,
    target_amount: u128,
    lock_id: Option<LockId>,
    decision: &SubscriptionUpdateDecision,
    current_amount: u128,
) -> (r: SubscriptionPlanChangeOutcome)
    ensures
        r.kind@ == spec_kind_text(kind)@,
        r.subscription_id == subscription_id,
        r.target_price_id == target_price_id,
        r.target_amount == target_amount,
        r.lock_id == lock_id,
        r.immediate_plan_change == decision.immediate_plan_change,
        r.immediate_stake_increase == decision.immediate_stake_increase,
        r.pending_plan_change == decision.pending_plan_change,
        r.pending_stake_decrease == match decision.pending_stake_decrease_target {
            Some(t) => Some(sat_sub(current_amount as int, t as int) as u128),
            None => None,
        },
        r.pending_apply_ns == decision.pending_apply_ns,
{
    SubscriptionPlanChangeOutcome {
        kind: kind.as_str().to_owned(),
        subscription_id,
        target_price_id,
        target_amount,
        lock_id,
        immediate_plan_change: decision.immediate_plan_change,
        immediate_stake_increase: decision.immediate_stake_increase,
        pending_plan_change: decision.pending_plan_change,
        pending_stake_decrease: match decision.pending_stake_decrease_target {
            Some(t) => Some(current_amount.saturating_sub(t)),
            None => None,
        },
        pending_apply_ns: decision.pending_apply_ns,
    }
}

/// The subscription after an update decision: the pending update is replaced, an immediate plan
/// change switches product and price now, and a deferred change is recorded for the period end.
pub open spec fn spec_updated_subscription(
    sub: Subscription,
    target_product_id: ProductId,
    target_price_id: PriceId,
    d: SubscriptionUpdateDecision,
) -> Subscription {
    let base = Subscription { pending_update: None, ..sub };
    let planned = if d.immediate_plan_change {
        Subscription { product_id: target_product_id, price_id: target_price_id, ..base }
    } else {
        base
    };
    if d.spec_has_pending() {
        Subscription {
            pending_update: Some(
                PendingSubscriptionUpdate {
                    target_price_id: if d.pending_plan_change {
                        Some(target_price_id)
                    } else {
                        None
                    },
                    target_amount: d.pending_stake_decrease_target,
                    apply_ns: d.pending_apply_ns.unwrap(),
                },
            ),
            ..planned
        }
    } else {
        planned
    }
}

/// The subscription lock after an update decision: an immediate plan change re-points its order
/// at the target price, then the lock follows the subscription window.
pub open spec fn spec_updated_lock(
    lock: Lock,
    sub: Subscription,
    target_product_id: ProductId,
    target_price_id: PriceId,
    d: SubscriptionUpdateDecision,
) -> Lock {
    let ordered = if d.immediate_plan_change {
        Lock {
            order: OrderRef::Subscription {
                subscription_id: sub.subscription_id,
                price_id: target_price_id,
                period_start_ns: sub.start_ns,
                period_end_ns: sub.end_ns,
            },
            ..lock
        }
    } else {
        lock
    };
    spec_synced_lock(ordered, spec_updated_subscription(sub, target_product_id, target_price_id, d))
}

pub open spec fn sat_inc_u64(x: u64) -> u64 {
    if x == u64::MAX {
        x
    } else {
        (x + 1) as u64
    }
}

/// Applies a decided update to the subscription, its lock and (for an immediate plan change) the
/// target catalog usage. Returns the subscription's product before and after.
pub fn apply_subscription_update_state(
    target_price_id: &PriceId,
    decision: &SubscriptionUpdateDecision,
    sub: &mut Subscription,
    target_price: &mut Price,
    target_product: &mut Product,
    lock: &mut Lock,
) -> (r: (ProductId, ProductId))
    requires
        decision.spec_has_pending() ==> decision.pending_apply_ns is Some,
    ensures
        r.0 == old(sub).product_id,
        r.1 == old(target_price).product_id,
        *final(sub) == spec_updated_subscription(
            *old(sub),
            old(target_price).product_id,
            *target_price_id,
            *decision,
        ),
        *final(lock) == spec_updated_lock(
            *old(lock),
            *old(sub),
            old(target_price).product_id,
            *target_price_id,
            *decision,
        ),
        decision.immediate_plan_change ==> *final(target_price) == (Price {
            usage_count: sat_inc_u64(old(target_price).usage_count),
            ..*old(target_price)
        }) && *final(target_product) == (Product {
            usage_count: sat_inc_u64(old(target_product).usage_count),
            ..*old(target_product)
        }),
        !decision.immediate_plan_change ==> *final(target_price) == *old(target_price)
            && *final(target_product) == *old(target_product),
{
    let old_product_id = sub.product_id.clone();
    let new_product_id = target_price.product_id.clone();
    sub.pending_update = None;
    if decision.immediate_plan_change {
        lock.order = OrderRef::Subscription {
            subscription_id: sub.subscription_id.clone(),
            price_id: target_price_id.clone(),
            period_start_ns: sub.start_ns,
            period_end_ns: sub.end_ns,
        };
        sub.product_id = new_product_id.clone();
        sub.price_id = target_price_id.clone();
        target_price.usage_count = target_price.usage_count.saturating_add(1);
        target_product.usage_count = target_product.usage_count.saturating_add(1);
    }
    if decision.has_pending_change() {
        let apply_ns = match decision.pending_apply_ns {
            Some(t) => t,
            None => 0,
        };
        sub.pending_update = Some(
            PendingSubscriptionUpdate {
                target_price_id: if decision.pending_plan_change {
                    Some(target_price_id.clone())
                } else {
                    None
                },
                target_amount: decision.pending_stake_decrease_target,
                apply_ns,
            },
        );
    }
    sync_lock_window_fields(lock, sub);
    (old_product_id, new_product_id)
}

/// Why committing an update is refused, if it is: the decision table, then the payment (the
/// exact increase, at least the minimum lock, minting at least one share and fitting the lock;
/// or exactly one yocto when nothing is added).
pub open spec fn spec_commit_update_error(
    decision: Result<SubscriptionUpdateDecision, ContractError>,
    deposit: int,
    min_lock_amount: int,
    validator: Validator,
    lock_amount: int,
) -> Option<ContractError> {
    match decision {
        Err(e) => Some(e),
        Ok(d) => match d.immediate_stake_increase {
            Some(delta) => if deposit != delta {
                Some(ContractError::AttachedMustEqualIncrease)
            } else if deposit < min_lock_amount {
                Some(ContractError::AttachedBelowMinLock)
            } else if spec_stake_error(validator, deposit) is Some {
                spec_stake_error(validator, deposit)
            } else if spec_stake_minted(validator, deposit) == 0 {
                Some(ContractError::IncreaseMintsNoShares)
            } else if lock_amount + deposit > u128::MAX {
                Some(ContractError::LockAmountOverflow)
            } else {
                None
            },
            None => if deposit != 1 {
                Some(ContractError::OneYoctoRequired)
            } else {
                None
            },
        },
    }
}

/// Commits a subscription update after the validator settlement: decides it, takes a stake
/// increase into the lock (minting shares on the validator), then applies the plan and pending
/// changes. `sub` is the subscription projected to `now_ns`; `user_shares` is the buyer's share
/// balance on the validator. Returns the report and the buyer's new share balance.
pub fn commit_subscription_update(
    deposit: u128,
    min_lock_amount: u128,
    target_price_id: &PriceId,
    target_amount: u128,
    sub: &mut Subscription,
    current_price: &Price,
    target_price: &mut Price,
    target_product: &mut Product,
    lock: &mut Lock,
    validator: &mut Validator,
    user_shares: u128,
    now_ns: u64,
) -> (r: Result<(SubscriptionPlanChangeOutcome, u128), ContractError>)
    ensures
        ({
            let dec = spec_update_decision(
                old(sub).price_id@,
                old(sub).end_ns as int,
                *current_price,
                *old(target_price),
                old(lock).amount_near as int,
                now_ns as int,
                target_price_id@,
                target_amount as int,
            );
            let err = spec_commit_update_error(
                dec,
                deposit as int,
                min_lock_amount as int,
                *old(validator),
                old(lock).amount_near as int,
            );
            &&& r is Err <==> err is Some
            &&& r matches Err(e) ==> err == Some(e)
            &&& r is Err ==> *final(sub) == *old(sub) && *final(target_price) == *old(target_price)
                && *final(target_product) == *old(target_product) && *final(lock) == *old(lock)
                && *final(validator) == *old(validator)
            &&& r matches Ok((out, shares)) ==> {
                let d = dec->Ok_0;
                let staked = d.immediate_stake_increase is Some;
                let minted = spec_stake_minted(*old(validator), deposit as int);
                let lock1 = if staked {
                    Lock {
                        amount_near: (old(lock).amount_near + deposit) as u128,
                        shares: sat_add(old(lock).shares as int, minted) as u128,
                        ..*old(lock)
                    }
                } else {
                    *old(lock)
                };
                &&& *final(sub) == spec_updated_subscription(
                    *old(sub),
                    old(target_price).product_id,
                    *target_price_id,
                    d,
                )
                &&& *final(lock) == spec_updated_lock(
                    lock1,
                    *old(sub),
                    old(target_price).product_id,
                    *target_price_id,
                    d,
                )
                &&& staked ==> *final(validator) == spec_staked_validator(
                    *old(validator),
                    deposit as int,
                ) && shares == sat_add(user_shares as int, minted)
                &&& !staked ==> *final(validator) == *old(validator) && shares == user_shares
                &&& d.immediate_plan_change ==> final(target_price).usage_count == sat_inc_u64(
                    old(target_price).usage_count,
                ) && final(target_product).usage_count == sat_inc_u64(
                    old(target_product).usage_count,
                )
                &&& *final(target_price) == (Price {
                    usage_count: final(target_price).usage_count,
                    ..*old(target_price)
                })
                &&& *final(target_product) == (Product {
                    usage_count: final(target_product).usage_count,
                    ..*old(target_product)
                })
                &&& !d.immediate_plan_change ==> *final(target_price) == *old(target_price)
                    && *final(target_product) == *old(target_product)
                &&& out.kind@ == spec_kind_text(spec_update_kind(d))@
                &&& out.subscription_id == old(sub).subscription_id
                &&& out.target_price_id == *target_price_id
                &&& out.target_amount == target_amount
                &&& out.lock_id == if staked {
                    Some(old(lock).lock_id)
                } else {
                    None
                }
                &&& out.immediate_plan_change == d.immediate_plan_change
                &&& out.immediate_stake_increase == d.immediate_stake_increase
                &&& out.pending_plan_change == d.pending_plan_change
                &&& out.pending_stake_decrease == match d.pending_stake_decrease_target {
                    Some(t) => Some(sat_sub(old(lock).amount_near as int, t as int) as u128),
                    None => None,
                }
                &&& out.pending_apply_ns == d.pending_apply_ns
            }
        }),
{
    let decision = match build_subscription_update_decision(
        sub,
        current_price,
        target_price,
        lock.amount_near,
        now_ns,
        target_price_id,
        target_amount,
    ) {
        Ok(d) => d,
        Err(e) => {
            return Err(e);
        },
    };
    let current_amount = lock.amount_near;
    let mut shares_out = user_shares;
    let lock_id_out = match decision.immediate_stake_increase {
        Some(expected_delta) => {
            if deposit != expected_delta {
                return Err(ContractError::AttachedMustEqualIncrease);
            }
            if deposit < min_lock_amount {
                return Err(ContractError::AttachedBelowMinLock);
            }
            match crate::validators::stake_preview(validator, deposit) {
                Ok(m) => if m == 0 {
                    return Err(ContractError::IncreaseMintsNoShares);
                },
                Err(e) => {
                    return Err(e);
                },
            }
            let amount = match lock.amount_near.checked_add(deposit) {
                Some(a) => a,
                None => {
                    return Err(ContractError::LockAmountOverflow);
                },
            };
            let (add_shares, new_user_shares) = match crate::validators::internal_stake(
                validator,
                user_shares,
                deposit,
            ) {
                Ok(x) => x,
                Err(e) => {
                    return Err(e);
                },
            };
            lock.amount_near = amount;
            lock.shares = lock.shares.saturating_add(add_shares);
            shares_out = new_user_shares;
            Some(lock.lock_id.clone())
        },
        None => {
            if deposit != 1 {
                return Err(ContractError::OneYoctoRequired);
            }
            None
        },
    };
    let ghost sub0 = *sub;
    let _ = apply_subscription_update_state(
        target_price_id,
        &decision,
        sub,
        target_price,
        target_product,
        lock,
    );
    let kind = subscription_update_kind(&decision);
    let out = subscription_update_outcome(
        kind,
        sub.subscription_id.clone(),
        target_price_id.clone(),
        target_amount,
        lock_id_out,
        &decision,
        current_amount,
    );
    Ok((out, shares_out))
}

/// Checks of an update request against the stored subscription: the target price and product
/// are active, the price is recurring monthly, the stake is in bounds, the subscription exists,
/// is the buyer's and is active; moving to another product needs that product free of the
/// buyer's other subscriptions (`existing_for_target`, the buyer's subscription index entry for
/// it) and of their pending updates (`target_reserved`).
pub open spec fn spec_update_target_check(
    buyer: Seq<char>,
    target_price: Option<Price>,
    target_product: Option<Product>,
    target_amount: int,
    stored: Option<Subscription>,
    subscription_id: Seq<char>,
    existing_for_target: Option<SubscriptionId>,
    target_reserved: bool,
) -> Result<(), ContractError> {
    let active = spec_active_price_and_product(target_price, target_product);
    if active is Err {
        active
    } else {
        let tp = target_price.unwrap();
        let tprod = target_product.unwrap();
        if tp.price_type != PriceType::Recurring {
            Err(ContractError::NotRecurringPrice)
        } else if tp.billing_period is None {
            Err(ContractError::NotMonthly)
        } else if target_amount < tp.amount {
            Err(ContractError::TargetBelowMinimum)
        } else if tp.spec_max_amount() matches Some(m) && target_amount > m {
            Err(ContractError::TargetAboveMaximum)
        } else {
            match stored {
                None => Err(ContractError::SubscriptionIdNotFound),
                Some(sub) => if sub.account_id@ != buyer {
                    Err(ContractError::NotSubscriptionOwner)
                } else if sub.status != SubscriptionStatus::Active {
                    Err(ContractError::SubscriptionNotActive)
                } else if tprod.product_id@ != sub.product_id@ && (existing_for_target matches Some(
                    e,
                ) && e@ != subscription_id) {
                    Err(ContractError::SubscriptionExistsForTarget)
                } else if tprod.product_id@ != sub.product_id@ && target_reserved {
                    Err(ContractError::TargetReservedByPendingUpdate)
                } else {
                    Ok(())
                },
            }
        }
    }
}

pub fn check_update_target(
    buyer: &AccountId,
    target_price: Option<&Price>,
    target_product: Option<&Product>,
    target_amount: u128,
    stored: Option<&Subscription>,
    subscription_id: &SubscriptionId,
    existing_for_target: Option<&SubscriptionId>,
    target_reserved: bool,
) -> (r: Result<(), ContractError>)
    ensures
        r == spec_update_target_check(
            buyer@,
            opt_ref(target_price),
            opt_ref(target_product),
            target_amount as int,
            opt_ref(stored),
            subscription_id@,
            opt_ref(existing_for_target),
            target_reserved,
        ),
{
    match get_active_price_and_product(target_price, target_product) {
        Ok(()) => {},
        Err(e) => {
            return Err(e);
        },
    }
    let tp = target_price.unwrap();
    let tprod = target_product.unwrap();
    match tp.require_recurring_monthly() {
        Ok(()) => {},
        Err(e) => {
            return Err(e);
        },
    }
    match validate_subscription_target_amount(tp, target_amount) {
        Ok(()) => {},
        Err(e) => {
            return Err(e);
        },
    }
    let sub = match stored {
        Some(s) => s,
        None => {
            return Err(ContractError::SubscriptionIdNotFound);
        },
    };
    if sub.account_id != *buyer {
        return Err(ContractError::NotSubscriptionOwner);
    }
    if sub.status != SubscriptionStatus::Active {
        return Err(ContractError::SubscriptionNotActive);
    }
    if tprod.product_id != sub.product_id {
        match existing_for_target {
            Some(e) => if *e != *subscription_id {
                return Err(ContractError::SubscriptionExistsForTarget);
            },
            None => {},
        }
        if target_reserved {
            return Err(ContractError::TargetReservedByPendingUpdate);
        }
    }
    Ok(())
}

/// Checks of an update request against the projected subscription: its current price exists,
/// its lock exists, is the buyer's and active, sits on the target product's validator (and on
/// the settled validator, when given), and the current period has not ended.
pub open spec fn spec_update_lock_check(
    buyer: Seq<char>,
    target_product: Product,
    current_price: Option<Price>,
    lock: Option<Lock>,
    expected_validator_id: Option<ValidatorId>,
    period_end_ns: int,
    now_ns: int,
) -> Result<(), ContractError> {
    if current_price is None {
        Err(ContractError::PriceNotFound)
    } else {
        match lock {
            None => Err(ContractError::NoLockForSubscription),
            Some(l) => if l.account_id@ != buyer {
                Err(ContractError::NotSubscriptionLockOwner)
            } else if l.status != LockStatus::Active {
                Err(ContractError::LockNotActive)
            } else if target_product.validator_id@ != l.validator_id@ {
                Err(ContractError::TargetValidatorMismatch)
            } else if (expected_validator_id matches Some(x) && target_product.validator_id@ != x@) {
                Err(ContractError::UpdateCatalogValidatorMismatch)
            } else if (expected_validator_id matches Some(x) && l.validator_id@ != x@) {
                Err(ContractError::UpdateLockValidatorMismatch)
            } else if now_ns >= period_end_ns {
                Err(ContractError::UpdatePeriodEnded)
            } else {
                Ok(())
            },
        }
    }
}

pub fn check_update_lock(
    buyer: &AccountId,
    target_product: &Product,
    current_price: Option<&Price>,
    lock: Option<&Lock>,
    expected_validator_id: Option<&ValidatorId>,
    projected: &Subscription,
    now_ns: u64,
) -> (r: Result<(), ContractError>)
    ensures
        r == spec_update_lock_check(
            buyer@,
            *target_product,
            opt_ref(current_price),
            opt_ref(lock),
            opt_ref(expected_validator_id),
            projected.end_ns as int,
            now_ns as int,
        ),
{
    if current_price.is_none() {
        return Err(ContractError::PriceNotFound);
    }
    let l = match lock {
        Some(l) => l,
        None => {
            return Err(ContractError::NoLockForSubscription);
        },
    };
    if l.account_id != *buyer {
        return Err(ContractError::NotSubscriptionLockOwner);
    }
    if l.status != LockStatus::Active {
        return Err(ContractError::LockNotActive);
    }
    if target_product.validator_id != l.validator_id {
        return Err(ContractError::TargetValidatorMismatch);
    }
    match expected_validator_id {
        Some(x) => {
            if target_product.validator_id != *x {
                return Err(ContractError::UpdateCatalogValidatorMismatch);
            }
            if l.validator_id != *x {
                return Err(ContractError::UpdateLockValidatorMismatch);
            }
        },
        None => {},
    }
    if now_ns >= projected.end_ns {
        return Err(ContractError::UpdatePeriodEnded);
    }
    Ok(())
}

/// Shares a scheduled stake decrease releases from the subscription lock: the surplus above the
/// target, valued against the lock's current share value, as a share fraction (floored). Zero
/// when the lock is not the buyer's active lock or there is nothing to release.
pub open spec fn spec_decrease_shares(lock: Lock, buyer: Seq<char>, target_amount: int, v: Validator) -> int {
    if lock.account_id@ != buyer || lock.status != LockStatus::Active {
        0
    } else {
        let surplus_target = sat_sub(lock.amount_near as int, target_amount);
        let lock_val = spec_near_from_shares(
            lock.shares as int,
            v.spec_net_stake(),
            v.total_shares as int,
        );
        if surplus_target == 0 || lock_val == 0 {
            0
        } else {
            let surplus = if surplus_target < lock_val {
                surplus_target
            } else {
                lock_val
            };
            let sr = surplus * lock.shares / lock_val;
            if sr < lock.shares {
                sr
            } else {
                lock.shares as int
            }
        }
    }
}

/// The lock after releasing `shares_remove` shares worth `near` NEAR; a lock left without shares
/// is marked for unlock.
pub open spec fn spec_decreased_lock(lock: Lock, shares_remove: int, near: int) -> Lock {
    let shares = sat_sub(lock.shares as int, shares_remove);
    Lock {
        shares: shares as u128,
        amount_near: sat_sub(lock.amount_near as int, near) as u128,
        status: if shares == 0 {
            LockStatus::UnlockRequested
        } else {
            lock.status
        },
        ..lock
    }
}

/// At a renewal with a scheduled stake decrease, releases the surplus shares of the subscription
/// lock into the unstake queue (as an unlock does). Returns the NEAR released and the buyer's
/// remaining shares, or `None` when nothing is released.
pub fn apply_scheduled_stake_decrease_at_renewal(
    buyer: &AccountId,
    target_amount: u128,
    lock: &mut Lock,
    validator: &mut Validator,
    user_shares: u128,
    tranches: &mut Vec<PendingUnstakeTranche>,
    current_epoch: u64,
    settle_epochs: u64,
) -> (r: Result<Option<(u128, u128)>, ContractError>)
    requires
        spec_near_from_shares(
            old(lock).shares as int,
            old(validator).spec_net_stake(),
            old(validator).total_shares as int,
        ) <= u128::MAX,
    ensures
        ({
            let v = *old(validator);
            let sr = spec_decrease_shares(*old(lock), buyer@, target_amount as int, v);
            let err = spec_unstake_error(v, user_shares as int, sr);
            let near = spec_unstake_near(v, sr);
            &&& sr == 0 ==> r == Ok::<Option<(u128, u128)>, ContractError>(None) && *final(lock)
                == *old(lock) && *final(validator) == v && final(tranches)@ == old(tranches)@
            &&& (sr > 0 && err is Some) ==> r == Err::<Option<(u128, u128)>, ContractError>(
                err.unwrap(),
            ) && *final(lock) == *old(lock) && *final(validator) == v
                && final(tranches)@ == old(tranches)@
            &&& (sr > 0 && err is None) ==> {
                &&& r == Ok::<Option<(u128, u128)>, ContractError>(
                    Some((near as u128, (user_shares - sr) as u128)),
                )
                &&& *final(lock) == spec_decreased_lock(*old(lock), sr, near)
                &&& crate::validators::spec_unstaked(
                    v,
                    *final(validator),
                    old(tranches)@,
                    final(tranches)@,
                    *buyer,
                    sr,
                    current_epoch as int,
                    settle_epochs as int,
                )
            }
        }),
{
    let ghost v = *validator;
    if lock.account_id != *buyer || lock.status != LockStatus::Active {
        return Ok(None);
    }
    let surplus_target = lock.amount_near.saturating_sub(target_amount);
    if surplus_target == 0 {
        return Ok(None);
    }
    let net = validator.net_stake_yocto();
    let total = validator.total_shares;
    let lock_val = near_from_shares(lock.shares, net, total);
    if lock_val == 0 {
        return Ok(None);
    }
    let surplus = if surplus_target < lock_val {
        surplus_target
    } else {
        lock_val
    };
    proof {
        crate::pricing::lemma_exit_bounded_by_backing(surplus, lock.shares, lock_val);
    }
    let sr0 = mul_div_floor(surplus, lock.shares, lock_val);
    let sr = if sr0 < lock.shares {
        sr0
    } else {
        lock.shares
    };
    if sr == 0 {
        return Ok(None);
    }
    let (near_amt, remaining) = match crate::validators::internal_unstake(
        validator,
        user_shares,
        tranches,
        buyer,
        sr,
        current_epoch,
        settle_epochs,
    ) {
        Ok(x) => x,
        Err(e) => {
            return Err(e);
        },
    };
    lock.shares = lock.shares.saturating_sub(sr);
    lock.amount_near = lock.amount_near.saturating_sub(near_amt);
    if lock.shares == 0 {
        lock.status = LockStatus::UnlockRequested;
    }
    Ok(Some((near_amt, remaining)))
}

/// The pending update of `sub` that is due at `now`, if any.
pub fn due_pending_update(sub: &Subscription, now: u64) -> (r: Option<&PendingSubscriptionUpdate>)
    ensures
        spec_update_due(*sub, now as int) ==> r == Some(&sub.pending_update.unwrap()),
        !spec_update_due(*sub, now as int) ==> r is None,
{
    if sub.status != SubscriptionStatus::Active || sub.cancel_at_period_end {
        return None;
    }
    match &sub.pending_update {
        Some(p) => if now >= p.apply_ns {
            Some(p)
        } else {
            None
        },
        None => None,
    }
}

/// The stored subscription after its due update is committed: the plan change (if any) taken,
/// the window rolled from the apply time to the period holding `now`, the update cleared.
pub open spec fn spec_due_applied(sub: Subscription, target_price: Option<Price>, now: int) -> Subscription {
    let base = spec_apply_due_fields(sub, target_price);
    let w = spec_window(sub.pending_update.unwrap().apply_ns as int, now);
    Subscription { start_ns: w.0 as u64, end_ns: w.1 as u64, ..base }
}

/// Why applying a due update is refused, if it is: a target price or product that is missing;
/// for a scheduled decrease on a linked lock, a missing validator, a validator not settled this
/// epoch, or the decrease's own refusal.
pub open spec fn spec_due_update_error(
    sub: Subscription,
    target_price: Option<Price>,
    target_product: Option<Product>,
    lock: Option<Lock>,
    validator: Option<Validator>,
    user_shares: int,
    current_epoch: int,
) -> Option<ContractError> {
    let p = sub.pending_update.unwrap();
    if p.target_price_id is Some && target_price is None {
        Some(ContractError::PriceNotFound)
    } else if p.target_price_id is Some && target_product is None {
        Some(ContractError::ProductNotFound)
    } else if p.target_amount is Some && lock is Some {
        if validator is None {
            Some(ContractError::ValidatorNotFound)
        } else if validator.unwrap().last_settlement_epoch < current_epoch {
            Some(ContractError::UnsettledDecrease)
        } else {
            let sr = spec_decrease_shares(
                lock.unwrap(),
                sub.account_id@,
                p.target_amount.unwrap() as int,
                validator.unwrap(),
            );
            if sr > 0 {
                spec_unstake_error(validator.unwrap(), user_shares, sr)
            } else {
                None
            }
        }
    } else {
        None
    }
}

/// The lock after a due update: the scheduled decrease (when it burns shares) and then the
/// window of the applied subscription, for an active lock of the subscriber.
pub open spec fn spec_due_lock(l: Lock, sub: Subscription, applied: Subscription, v: Option<Validator>) -> Lock {
    let p = sub.pending_update.unwrap();
    let l1 = if p.target_amount is Some && v is Some {
        let sr = spec_decrease_shares(l, sub.account_id@, p.target_amount.unwrap() as int, v.unwrap());
        if sr > 0 {
            spec_decreased_lock(l, sr, spec_unstake_near(v.unwrap(), sr))
        } else {
            l
        }
    } else {
        l
    };
    if l1.account_id@ == sub.account_id@ && l1.status == LockStatus::Active {
        spec_synced_lock(l1, applied)
    } else {
        l1
    }
}

/// Commits a due pending update of the stored subscription (a renewal at the period end): a
/// scheduled stake decrease releases surplus shares of the subscription lock (the validator
/// must have been settled this epoch), a scheduled plan change switches product and price and
/// counts one more use of each, the window rolls forward, and the lock follows it.
///
/// `target_price` and `target_product` are the records the update's target price names, when
/// stored; `lock` is the subscription's last lock and `validator` its pool, when stored.
/// Returns whether an update was applied, the decrease result, and the subscription's product
/// before and after.
pub fn apply_due_subscription_update(
    sub: &mut Subscription,
    now: u64,
    target_price: &mut Option<Price>,
    target_product: &mut Option<Product>,
    lock: &mut Option<Lock>,
    validator: &mut Option<Validator>,
    user_shares: u128,
    tranches: &mut Vec<PendingUnstakeTranche>,
    current_epoch: u64,
    settle_epochs: u64,
) -> (r: Result<(bool, Option<(u128, u128)>, (ProductId, ProductId)), ContractError>)
    requires
        now < u64::MAX,
        spec_update_due(*old(sub), now as int) ==> match old(sub).pending_update.unwrap().target_price_id {
            Some(tid) => ((*old(target_price)) matches Some(tp) ==> tp.price_id@ == tid@) && ((*old(target_product)) matches Some(tq) ==> (*old(target_price)) matches Some(tp) && tq.product_id@
                == tp.product_id@),
            None => true,
        },
        (*old(lock)) matches Some(l) ==> ((*old(validator)) matches Some(v) ==> spec_near_from_shares(
            l.shares as int,
            v.spec_net_stake(),
            v.total_shares as int,
        ) <= u128::MAX),
    ensures
        !spec_update_due(*old(sub), now as int) ==> (r matches Ok((applied, dec, _)) && !applied
            && dec is None) && *final(sub) == *old(sub) && *final(lock) == *old(lock)
            && *final(validator) == *old(validator) && *final(target_price) == *old(target_price)
            && *final(target_product) == *old(target_product) && final(tranches)@ == old(tranches)@,
        r is Err ==> *final(sub) == *old(sub) && *final(lock) == *old(lock) && *final(validator)
            == *old(validator) && *final(target_price) == *old(target_price) && *final(target_product)
            == *old(target_product) && final(tranches)@ == old(tranches)@,
        r matches Ok((applied, _, ids)) ==> applied ==> {
            let p = old(sub).pending_update.unwrap();
            &&& spec_update_due(*old(sub), now as int)
            &&& *final(sub) == spec_due_applied(*old(sub), *old(target_price), now as int)
            &&& ids.0 == old(sub).product_id
            &&& ids.1 == final(sub).product_id
            &&& (p.target_price_id is Some ==> (*old(target_price)) is Some && (*old(target_product))
                is Some && *final(target_price) == Some(
                Price {
                    usage_count: sat_inc_u64((*old(target_price)).unwrap().usage_count),
                    ..(*old(target_price)).unwrap()
                },
            ) && *final(target_product) == Some(
                Product {
                    usage_count: sat_inc_u64((*old(target_product)).unwrap().usage_count),
                    ..(*old(target_product)).unwrap()
                },
            ))
            &&& (p.target_price_id is None ==> *final(target_price) == *old(target_price)
                && *final(target_product) == *old(target_product))
            &&& ((*old(lock)) is None ==> *final(lock) is None)
            &&& (p.target_amount is None ==> *final(validator) == *old(validator)
                && final(tranches)@ == old(tranches)@ && ((*old(lock)) matches Some(l)
                ==> *final(lock) == Some(
                if l.account_id@ == old(sub).account_id@ && l.status == LockStatus::Active {
                    spec_synced_lock(l, *final(sub))
                } else {
                    l
                },
            )))
        },
        spec_update_due(*old(sub), now as int) ==> {
            let err = spec_due_update_error(
                *old(sub),
                *old(target_price),
                *old(target_product),
                *old(lock),
                *old(validator),
                user_shares as int,
                current_epoch as int,
            );
            &&& r is Err <==> err is Some
            &&& r matches Err(e) ==> err == Some(e)
            &&& r is Ok ==> r matches Ok((true, _, _))
        },
        spec_update_due(*old(sub), now as int) && r is Ok && (*old(lock)) is Some ==> {
            let p = old(sub).pending_update.unwrap();
            let l = (*old(lock)).unwrap();
            let decreasing = p.target_amount is Some && spec_decrease_shares(
                l,
                old(sub).account_id@,
                p.target_amount.unwrap() as int,
                (*old(validator)).unwrap(),
            ) > 0;
            &&& *final(lock) == Some(spec_due_lock(l, *old(sub), *final(sub), *old(validator)))
            &&& decreasing ==> {
                let v = (*old(validator)).unwrap();
                let sr = spec_decrease_shares(
                    l,
                    old(sub).account_id@,
                    p.target_amount.unwrap() as int,
                    v,
                );
                &&& r matches Ok((_, dec, _)) && dec == Some(
                    (spec_unstake_near(v, sr) as u128, (user_shares - sr) as u128),
                )
                &&& (*final(validator)) matches Some(v2) && crate::validators::spec_unstaked(
                    v,
                    v2,
                    old(tranches)@,
                    final(tranches)@,
                    old(sub).account_id,
                    sr,
                    current_epoch as int,
                    settle_epochs as int,
                )
            }
            &&& !decreasing ==> (r matches Ok((_, dec, _)) && dec is None) && *final(validator)
                == *old(validator) && final(tranches)@ == old(tranches)@
        },
        spec_update_due(*old(sub), now as int) ==> {
            let p = old(sub).pending_update.unwrap();
            &&& (p.target_price_id is Some && (*old(target_price)) is None) ==> r
                == Err::<(bool, Option<(u128, u128)>, (ProductId, ProductId)), ContractError>(
                ContractError::PriceNotFound,
            )
            &&& (p.target_price_id is Some && (*old(target_price)) is Some && (*old(target_product))
                is None) ==> r == Err::<(bool, Option<(u128, u128)>, (ProductId, ProductId)), ContractError>(
                ContractError::ProductNotFound,
            )
        },
{
    let ghost sub0 = *sub;
    let (apply_ns, tid, tamount) = match due_pending_update(sub, now) {
        None => {
            let pid = sub.product_id.clone();
            return Ok((false, None, (pid.clone(), pid)));
        },
        Some(p) => (p.apply_ns, p.target_price_id.clone(), p.target_amount),
    };
    if tid.is_some() {
        if target_price.is_none() {
            return Err(ContractError::PriceNotFound);
        }
        if target_product.is_none() {
            return Err(ContractError::ProductNotFound);
        }
    }
    let mut dec: Option<(u128, u128)> = None;
    match tamount {
        Some(t) => {
            match lock {
                Some(l) => {
                    match validator {
                        Some(v) => {
                            if v.last_settlement_epoch < current_epoch {
                                return Err(ContractError::UnsettledDecrease);
                            }
                            let buyer = sub.account_id.clone();
                            match apply_scheduled_stake_decrease_at_renewal(
                                &buyer,
                                t,
                                l,
                                v,
                                user_shares,
                                tranches,
                                current_epoch,
                                settle_epochs,
                            ) {
                                Ok(d) => {
                                    dec = d;
                                },
                                Err(e) => {
                                    return Err(e);
                                },
                            }
                        },
                        None => {
                            return Err(ContractError::ValidatorNotFound);
                        },
                    }
                },
                None => {},
            }
        },
        None => {},
    }
    let old_product_id = sub.product_id.clone();
    match &tid {
        Some(t) => {
            match target_price {
                Some(tp) => {
                    sub.product_id = tp.product_id.clone();
                },
                None => {},
            }
            sub.price_id = t.clone();
        },
        None => {},
    }
    sub.pending_update = None;
    let (s, e) = projected_subscription_window_from(sub.anchor_day, apply_ns, now);
    sub.start_ns = s;
    sub.end_ns = e;
    assert(*sub == spec_due_applied(sub0, *target_price, now as int));
    match lock {
        Some(l) => {
            sync_subscription_lock_window(l, sub);
        },
        None => {},
    }
    if tid.is_some() {
        match target_price {
            Some(tp) => {
                tp.usage_count = tp.usage_count.saturating_add(1);
            },
            None => {},
        }
        match target_product {
            Some(tq) => {
                tq.usage_count = tq.usage_count.saturating_add(1);
            },
            None => {},
        }
    }
    let new_product_id = sub.product_id.clone();
    Ok((true, dec, (old_product_id, new_product_id)))
}

/// How the `(account, product)` index moves when a subscription changes product: the new key
/// must be free or already this subscription's; it is set when free, and the old key is dropped
/// when it names this subscription. Returns whether to set the new key and drop the old one.
pub fn move_subscription_product_index(
    subscription_id: &SubscriptionId,
    old_product_id: &ProductId,
    new_product_id: &ProductId,
    existing_new: Option<&SubscriptionId>,
    existing_old: Option<&SubscriptionId>,
) -> (r: Result<(bool, bool), ContractError>)
    ensures
        r == if old_product_id@ == new_product_id@ {
            Ok((false, false))
        } else if (existing_new matches Some(e) && e@ != subscription_id@) {
            Err(ContractError::SubscriptionExistsForTarget)
        } else {
            Ok(
                (
                    existing_new is None,
                    existing_old matches Some(e) && e@ == subscription_id@,
                ),
            )
        },
{
    if *old_product_id == *new_product_id {
        return Ok((false, false));
    }
    let insert_new = match existing_new {
        Some(e) => {
            if *e != *subscription_id {
                return Err(ContractError::SubscriptionExistsForTarget);
            }
            false
        },
        None => true,
    };
    let drop_old = match existing_old {
        Some(e) => *e == *subscription_id,
        None => false,
    };
    Ok((insert_new, drop_old))
}

/// One of the buyer's subscriptions, as the reservation check sees it: its id, whether it is
/// active, and the product its pending update would move it to.
#[derive(Debug)]
pub struct PendingTarget {
    pub subscription_id: SubscriptionId,
    pub active: bool,
    pub target_product_id: Option<ProductId>,
}

pub open spec fn spec_reserves(t: PendingTarget, product_id: Seq<char>, allowed: Option<SubscriptionId>) -> bool {
    &&& !(allowed matches Some(a) && a@ == t.subscription_id@)
    &&& t.active
    &&& t.target_product_id matches Some(p) && p@ == product_id
}

/// A product is reserved when another active subscription of the buyer has a pending update
/// moving it there.
pub fn assert_product_not_reserved_by_pending_update(
    targets: &Vec<PendingTarget>,
    product_id: &ProductId,
    allowed_subscription_id: Option<&SubscriptionId>,
) -> (r: Result<(), ContractError>)
    ensures
        r == if (exists|i: int|
            0 <= i < targets@.len() && spec_reserves(
                #[trigger] targets@[i],
                product_id@,
                opt_ref(allowed_subscription_id),
            )) {
            Err(ContractError::TargetReservedByPendingUpdate)
        } else {
            Ok(())
        },
{
    let mut i: usize = 0;
    while i < targets.len()
        invariant
            i <= targets@.len(),
            forall|k: int|
                0 <= k < i ==> !spec_reserves(
                    #[trigger] targets@[k],
                    product_id@,
                    opt_ref(allowed_subscription_id),
                ),
        decreases targets@.len() - i,
    {
        let t = &targets[i];
        let skip = match allowed_subscription_id {
            Some(a) => *a == t.subscription_id,
            None => false,
        };
        let hit = match &t.target_product_id {
            Some(p) => *p == *product_id,
            None => false,
        };
        if !skip && t.active && hit {
            return Err(ContractError::TargetReservedByPendingUpdate);
        }
        i = i + 1;
    }
    Ok(())
}

/// One of the buyer's subscriptions with the product it has once projected to now.
#[derive(Debug)]
pub struct ProjectedProduct {
    pub subscription_id: SubscriptionId,
    pub owner_matches: bool,
    pub active: bool,
    pub projected_product_id: ProductId,
}

/// Finds the buyer's subscription for a product: the indexed one when (after projection) it is
/// on that product, which must then be the buyer's; else the first active subscription of the
/// buyer projected onto that product.
pub fn find_subscription_by_projected_product(
    product_id: &ProductId,
    indexed: Option<&ProjectedProduct>,
    listed: &Vec<ProjectedProduct>,
) -> (r: Result<Option<SubscriptionId>, ContractError>)
    ensures
        indexed matches Some(x) ==> (!x.owner_matches ==> r == Err::<
            Option<SubscriptionId>,
            ContractError,
        >(ContractError::NotSubscriptionOwner)),
        indexed matches Some(x) ==> (x.owner_matches && x.projected_product_id@ == product_id@ ==> r
            == Ok::<Option<SubscriptionId>, ContractError>(Some(x.subscription_id))),
        indexed is None || indexed.unwrap().owner_matches ==> r is Ok,
        r matches Ok(Some(id)) ==> (indexed matches Some(x) && x.subscription_id == id
            && x.projected_product_id@ == product_id@) || (exists|i: int|
            0 <= i < listed@.len() && (#[trigger] listed@[i]).subscription_id == id
                && listed@[i].owner_matches && listed@[i].active
                && listed@[i].projected_product_id@ == product_id@),
        r matches Ok(None) ==> forall|i: int|
            0 <= i < listed@.len() ==> !((#[trigger] listed@[i]).owner_matches && listed@[i].active
                && listed@[i].projected_product_id@ == product_id@),
{
    match indexed {
        Some(x) => {
            if !x.owner_matches {
                return Err(ContractError::NotSubscriptionOwner);
            }
            if x.projected_product_id == *product_id {
                return Ok(Some(x.subscription_id.clone()));
            }
        },
        None => {},
    }
    let mut i: usize = 0;
    while i < listed.len()
        invariant
            i <= listed@.len(),
            indexed matches Some(x) ==> x.owner_matches && x.projected_product_id@ != product_id@,
            forall|k: int|
                0 <= k < i ==> !((#[trigger] listed@[k]).owner_matches && listed@[k].active
                    && listed@[k].projected_product_id@ == product_id@),
        decreases listed@.len() - i,
    {
        let c = &listed[i];
        if c.owner_matches && c.active && c.projected_product_id == *product_id {
            return Ok(Some(c.subscription_id.clone()));
        }
        i = i + 1;
    }
    Ok(None)
}

} // verus!
