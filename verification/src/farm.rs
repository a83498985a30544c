//! Farm staking: positions stake NEAR through a farm price and earn reward units per second per
//! staked NEAR, accounted with a per-share accumulator on the farm pool.

use crate::catalog::{get_active_price_and_product, spec_active_price_and_product};
use crate::errors::ContractError;
use crate::storage::ensure_min_base_storage;
use crate::pricing::{mul_div_floor_rem, near_from_shares, sat_add, sat_sub, spec_near_from_shares};
use crate::strvec::{push_unique, seq_has};
use crate::types::{
    opt_ref, Account, AccountId, CatalogStatus, Config, FarmAccount, FarmAccountView, FarmPool, FarmPosition,
    FarmPositionView, FarmStatus, Price, PriceId, PriceType, Product, ProductId, Validator,
    ValidatorId,
};
use crate::u256::{div_rem, mul_u128, wide_mul, word};
use crate::validators::{spec_stake_error, spec_stake_minted, spec_staked_validator, spec_unstake_error};
use vstd::prelude::*;

verus! {

pub const FARM_REWARD_RATE_DENOM: u128 = 1;

pub const FARM_ACC_REWARD_PER_SHARE_DENOM: u128 = 1_000_000_000_000_000_000_000_000;

pub const YOCTO_PER_NEAR: u128 = 1_000_000_000_000_000_000_000_000;

pub const NS_PER_SECOND: u128 = 1_000_000_000;

/// Reward units emitted to `total_farm_near_yocto` staked over `elapsed_ns` at `reward_rate`
/// units per second per NEAR, floored at each step.
pub open spec fn spec_farm_delta(total_farm_near_yocto: int, elapsed_ns: int, reward_rate: int) -> int {
    total_farm_near_yocto * elapsed_ns * reward_rate / (YOCTO_PER_NEAR as int) / (NS_PER_SECOND as int)
        / (FARM_REWARD_RATE_DENOM as int)
}

pub fn farm_delta_reward_units(total_farm_near_yocto: u128, elapsed_ns: u128, reward_rate: u128) -> (r:
    u128)
    requires
        total_farm_near_yocto * elapsed_ns * reward_rate < word() * word(),
        spec_farm_delta(total_farm_near_yocto as int, elapsed_ns as int, reward_rate as int)
            <= u128::MAX,
    ensures
        r == spec_farm_delta(total_farm_near_yocto as int, elapsed_ns as int, reward_rate as int),
{
    let p = mul_u128(wide_mul(total_farm_near_yocto, elapsed_ns), reward_rate);
    let (q1, r1) = div_rem(p, YOCTO_PER_NEAR);
    let (q2, r2) = div_rem(q1, NS_PER_SECOND);
    let (q3, r3) = div_rem(q2, FARM_REWARD_RATE_DENOM);
    proof {
        let x = total_farm_near_yocto * elapsed_ns * reward_rate;
        vstd::arithmetic::div_mod::lemma_fundamental_div_mod_converse_div(
            x,
            YOCTO_PER_NEAR as int,
            q1.value(),
            r1 as int,
        );
        vstd::arithmetic::div_mod::lemma_fundamental_div_mod_converse_div(
            q1.value(),
            NS_PER_SECOND as int,
            q2.value(),
            r2 as int,
        );
        vstd::arithmetic::div_mod::lemma_fundamental_div_mod_converse_div(
            q2.value(),
            FARM_REWARD_RATE_DENOM as int,
            q3.value(),
            r3 as int,
        );
    }
    q3.as_u128()
}

/// Reward units accumulated by `shares` at accumulator value `acc_reward_per_share`.
pub open spec fn spec_farm_accumulated(shares: int, acc_reward_per_share: int) -> int {
    shares * acc_reward_per_share / (FARM_ACC_REWARD_PER_SHARE_DENOM as int)
}

pub fn farm_position_accumulated(shares: u128, acc_reward_per_share: u128) -> (r: u128)
    requires
        spec_farm_accumulated(shares as int, acc_reward_per_share as int) <= u128::MAX,
    ensures
        r == spec_farm_accumulated(shares as int, acc_reward_per_share as int),
{
    let (q, _) = mul_div_floor_rem(shares, acc_reward_per_share, FARM_ACC_REWARD_PER_SHARE_DENOM);
    q
}

/// Shares to burn for `amount_yocto`: the ceiling of its share value, at least one and at most
/// `max_shares`.
pub open spec fn spec_shares_for_amount_ceil(
    amount_yocto: int,
    validator_total_shares: int,
    net_stake_yocto: int,
    max_shares: int,
) -> int {
    let num = amount_yocto * validator_total_shares;
    let q = num / net_stake_yocto;
    let c = if num % net_stake_yocto != 0 {
        if q + 1 > u128::MAX {
            u128::MAX as int
        } else {
            q + 1
        }
    } else {
        q
    };
    if c < 1 {
        1
    } else if c > max_shares {
        max_shares
    } else {
        c
    }
}

/// The shares burned for an amount cover it, and no fewer shares would: when the ceiling is
/// within `max_shares`, it is the least share count whose value reaches `amount_yocto`.
pub proof fn lemma_shares_ceil_covers_amount(
    amount_yocto: u128,
    validator_total_shares: u128,
    net_stake_yocto: u128,
    max_shares: u128,
)
    requires
        amount_yocto > 0,
        validator_total_shares > 0,
        net_stake_yocto > 0,
        (amount_yocto * validator_total_shares + net_stake_yocto - 1) / (net_stake_yocto as int)
            <= max_shares,
    ensures
        ({
            let r = spec_shares_for_amount_ceil(
                amount_yocto as int,
                validator_total_shares as int,
                net_stake_yocto as int,
                max_shares as int,
            );
            &&& spec_near_from_shares(r, net_stake_yocto as int, validator_total_shares as int)
                >= amount_yocto
            &&& forall|fewer: int|
                0 <= fewer < r ==> spec_near_from_shares(
                    fewer,
                    net_stake_yocto as int,
                    validator_total_shares as int,
                ) < amount_yocto
        }),
{
    let a = amount_yocto as int;
    let t = validator_total_shares as int;
    let n = net_stake_yocto as int;
    let num = a * t;
    let q = num / n;
    let rem = num % n;
    vstd::arithmetic::div_mod::lemma_fundamental_div_mod(num, n);
    assert(num > 0) by (nonlinear_arith)
        requires
            a > 0,
            t > 0,
            num == a * t,
    ;
    assert(0 <= rem < n);
    assert(q >= 0) by (nonlinear_arith)
        requires
            num > 0,
            n > 0,
            q == num / n,
    ;
    let c = if rem != 0 {
        q + 1
    } else {
        q
    };
    // `c` is the ceiling of `num / n`.
    assert(c * n >= num && (c - 1) * n < num) by (nonlinear_arith)
        requires
            num == n * q + rem,
            0 <= rem < n,
            c == if rem != 0 {
                q + 1
            } else {
                q
            },
            n > 0,
    ;
    assert(c >= 1) by (nonlinear_arith)
        requires
            (c - 1) * n < num,
            c * n >= num,
            num > 0,
            n > 0,
    ;
    let d = (num + n - 1) / n;
    vstd::arithmetic::div_mod::lemma_fundamental_div_mod(num + n - 1, n);
    let m = (num + n - 1) % n;
    assert(n * d >= num) by (nonlinear_arith)
        requires
            num + n - 1 == n * d + m,
            0 <= m < n,
    ;
    assert(d >= c) by (nonlinear_arith)
        requires
            n * d >= num,
            (c - 1) * n < num,
            n > 0,
    ;
    assert(d <= c) by (nonlinear_arith)
        requires
            num + n - 1 == n * d + m,
            0 <= m,
            c * n >= num,
            n > 0,
    ;
    let r = spec_shares_for_amount_ceil(a, t, n, max_shares as int);
    assert(r == c);
    assert(c * n / t >= a) by {
        vstd::arithmetic::div_mod::lemma_div_is_ordered(a * t, c * n, t);
        vstd::arithmetic::div_mod::lemma_div_by_multiple(a, t);
    }
    assert forall|fewer: int| 0 <= fewer < r implies spec_near_from_shares(fewer, n, t) < a by {
        assert(fewer * n < a * t) by (nonlinear_arith)
            requires
                0 <= fewer <= c - 1,
                (c - 1) * n < num,
                num == a * t,
                n > 0,
        ;
        let x = fewer * n;
        vstd::arithmetic::div_mod::lemma_fundamental_div_mod(x, t);
        assert(x / t < a) by (nonlinear_arith)
            requires
                x == t * (x / t) + x % t,
                0 <= x % t,
                x < a * t,
                t > 0,
        ;
    }
}

pub fn farm_shares_for_amount_ceil(
    amount_yocto: u128,
    validator_total_shares: u128,
    net_stake_yocto: u128,
    max_shares: u128,
) -> (r: u128)
    requires
        net_stake_yocto > 0,
        max_shares >= 1,
        amount_yocto * validator_total_shares / (net_stake_yocto as int) <= u128::MAX,
    ensures
        r == spec_shares_for_amount_ceil(
            amount_yocto as int,
            validator_total_shares as int,
            net_stake_yocto as int,
            max_shares as int,
        ),
        1 <= r <= max_shares,
{
    let (q, has_rem) = mul_div_floor_rem(amount_yocto, validator_total_shares, net_stake_yocto);
    let c = if has_rem {
        q.saturating_add(1)
    } else {
        q
    };
    if c < 1 {
        1
    } else if c > max_shares {
        max_shares
    } else {
        c
    }
}

/// NEAR value of the pool's farm shares on its validator.
pub open spec fn spec_pool_near(pool: FarmPool, v: Validator) -> int {
    spec_near_from_shares(pool.total_farm_shares as int, v.spec_net_stake(), v.total_shares as int)
}

/// Accumulator increase for `delta` reward units over `total_farm_shares`.
pub open spec fn spec_acc_delta(delta: int, total_farm_shares: int) -> int {
    delta * (FARM_ACC_REWARD_PER_SHARE_DENOM as int) / total_farm_shares
}

/// The pool settled to `now_ns`: rewards since the last settlement are spread over its shares.
pub open spec fn spec_settled_pool(pool: FarmPool, v: Validator, now_ns: int) -> FarmPool {
    if now_ns <= pool.last_reward_settle_ns {
        pool
    } else if pool.total_farm_shares == 0 {
        FarmPool { last_reward_settle_ns: now_ns as u64, ..pool }
    } else {
        let delta = spec_farm_delta(
            spec_pool_near(pool, v),
            now_ns - pool.last_reward_settle_ns,
            pool.reward_rate as int,
        );
        FarmPool {
            acc_reward_per_share: if delta > 0 {
                sat_add(
                    pool.acc_reward_per_share as int,
                    spec_acc_delta(delta, pool.total_farm_shares as int),
                ) as u128
            } else {
                pool.acc_reward_per_share
            },
            last_reward_settle_ns: now_ns as u64,
            ..pool
        }
    }
}

/// The arithmetic of settling `pool` at `now_ns` fits the integer widths used.
pub open spec fn spec_settle_fits(pool: FarmPool, v: Validator, now_ns: int) -> bool {
    now_ns > pool.last_reward_settle_ns && pool.total_farm_shares > 0 ==> {
        let near = spec_pool_near(pool, v);
        let elapsed = now_ns - pool.last_reward_settle_ns;
        let delta = spec_farm_delta(near, elapsed, pool.reward_rate as int);
        &&& near <= u128::MAX
        &&& near * elapsed * pool.reward_rate < word() * word()
        &&& delta <= u128::MAX
        &&& spec_acc_delta(delta, pool.total_farm_shares as int) <= u128::MAX
    }
}

/// Settles the pool's accumulator to `now_ns`; `validator` is the pool product's validator.
pub fn settle_farm_pool(pool: &mut FarmPool, validator: &Validator, now_ns: u64)
    requires
        spec_settle_fits(*old(pool), *validator, now_ns as int),
    ensures
        *final(pool) == spec_settled_pool(*old(pool), *validator, now_ns as int),
{
    if now_ns <= pool.last_reward_settle_ns {
        return;
    }
    if pool.total_farm_shares == 0 {
        pool.last_reward_settle_ns = now_ns;
        return;
    }
    let near = near_from_shares(
        pool.total_farm_shares,
        validator.net_stake_yocto(),
        validator.total_shares,
    );
    let elapsed = (now_ns - pool.last_reward_settle_ns) as u128;
    let delta = farm_delta_reward_units(near, elapsed, pool.reward_rate);
    if delta > 0 {
        let (delta_acc, _) = mul_div_floor_rem(
            delta,
            FARM_ACC_REWARD_PER_SHARE_DENOM,
            pool.total_farm_shares,
        );
        pool.acc_reward_per_share = pool.acc_reward_per_share.saturating_add(delta_acc);
    }
    pool.last_reward_settle_ns = now_ns;
}

/// Settling a pool with farm shares books, for the time since its last settlement, the rewards of
/// the NEAR its own farm shares are worth on the validator (`total_farm_shares * net_stake /
/// total_shares`) at its reward rate per NEAR and second, spread over those farm shares: the
/// accumulator grows by `units * FARM_ACC_REWARD_PER_SHARE_DENOM / total_farm_shares`,
/// saturating, and the settlement time becomes `now_ns`.
pub proof fn lemma_settle_pays_the_farm_shares_near(pool: FarmPool, v: Validator, now_ns: u64)
    requires
        now_ns > pool.last_reward_settle_ns,
        pool.total_farm_shares > 0,
        v.total_shares > 0,
    ensures
        ({
            let near = pool.total_farm_shares * v.spec_net_stake() / (v.total_shares as int);
            let units = near * (now_ns - pool.last_reward_settle_ns) * pool.reward_rate / ((
            YOCTO_PER_NEAR as int) * (NS_PER_SECOND as int) * (FARM_REWARD_RATE_DENOM as int));
            let inc = units * (FARM_ACC_REWARD_PER_SHARE_DENOM as int) / (
            pool.total_farm_shares as int);
            let settled = spec_settled_pool(pool, v, now_ns as int);
            &&& settled.last_reward_settle_ns == now_ns
            &&& settled.total_farm_shares == pool.total_farm_shares
            &&& settled.reward_rate == pool.reward_rate
            &&& settled.acc_reward_per_share == if pool.acc_reward_per_share + inc > u128::MAX {
                u128::MAX as int
            } else {
                pool.acc_reward_per_share + inc
            }
        }),
{
    let net = v.spec_net_stake();
    assert(net >= 0);
    let tfs = pool.total_farm_shares as int;
    let elapsed = now_ns - pool.last_reward_settle_ns;
    vstd::arithmetic::mul::lemma_mul_nonnegative(tfs, net);
    vstd::arithmetic::div_mod::lemma_div_pos_is_pos(tfs * net, v.total_shares as int);
    let near = tfs * net / (v.total_shares as int);
    assert(near == spec_pool_near(pool, v));
    vstd::arithmetic::mul::lemma_mul_nonnegative(near, elapsed);
    vstd::arithmetic::mul::lemma_mul_nonnegative(near * elapsed, pool.reward_rate as int);
    let x = near * elapsed * pool.reward_rate;
    vstd::arithmetic::div_mod::lemma_div_denominator(x, YOCTO_PER_NEAR as int, NS_PER_SECOND as int);
    vstd::arithmetic::div_mod::lemma_div_pos_is_pos(x, (YOCTO_PER_NEAR as int) * (NS_PER_SECOND as int));
    vstd::arithmetic::div_mod::lemma_div_denominator(
        x,
        (YOCTO_PER_NEAR as int) * (NS_PER_SECOND as int),
        FARM_REWARD_RATE_DENOM as int,
    );
    let units = spec_farm_delta(near, elapsed, pool.reward_rate as int);
    assert(units == x / ((YOCTO_PER_NEAR as int) * (NS_PER_SECOND as int) * (
    FARM_REWARD_RATE_DENOM as int)));
    vstd::arithmetic::div_mod::lemma_div_pos_is_pos(
        x / ((YOCTO_PER_NEAR as int) * (NS_PER_SECOND as int)),
        FARM_REWARD_RATE_DENOM as int,
    );
    assert(units >= 0);
    if units == 0 {
        assert(units * (FARM_ACC_REWARD_PER_SHARE_DENOM as int) == 0);
        assert(0int / tfs == 0);
    }
}

/// The pool as it would stand settled at `now_ns` (for views).
pub fn simulate_settled_farm_pool(pool: FarmPool, validator: &Validator, now_ns: u64) -> (r: FarmPool)
    requires
        spec_settle_fits(pool, *validator, now_ns as int),
    ensures
        r == spec_settled_pool(pool, *validator, now_ns as int),
{
    let mut pool = pool;
    settle_farm_pool(&mut pool, validator, now_ns);
    pool
}

/// Settling twice at the same time is the same as settling once, and a settled pool's
/// accumulator never decreases.
pub proof fn lemma_settle_idempotent_and_monotone(pool: FarmPool, v: Validator, now_ns: u64)
    ensures
        spec_settled_pool(spec_settled_pool(pool, v, now_ns as int), v, now_ns as int)
            == spec_settled_pool(pool, v, now_ns as int),
        spec_settled_pool(pool, v, now_ns as int).acc_reward_per_share >= pool.acc_reward_per_share,
        spec_settled_pool(pool, v, now_ns as int).total_farm_shares == pool.total_farm_shares,
{
    let p1 = spec_settled_pool(pool, v, now_ns as int);
    if now_ns > pool.last_reward_settle_ns && pool.total_farm_shares > 0 {
        let delta = spec_farm_delta(
            spec_pool_near(pool, v),
            now_ns - pool.last_reward_settle_ns,
            pool.reward_rate as int,
        );
        if delta > 0 {
            assert(spec_acc_delta(delta, pool.total_farm_shares as int) >= 0) by (nonlinear_arith)
                requires
                    delta > 0,
                    pool.total_farm_shares > 0,
            ;
        }
    }
}

/// Reward units a position has earned since its last settlement at the pool's accumulator.
pub open spec fn spec_position_pending(position: FarmPosition, pool: FarmPool) -> int {
    sat_sub(
        spec_farm_accumulated(position.shares as int, pool.acc_reward_per_share as int),
        position.reward_debt as int,
    )
}

/// Books the pending reward units of an active position against a settled pool. Returns the
/// units booked.
pub fn settle_farm_position(position: &mut FarmPosition, settled_pool: &FarmPool, now_ns: u64) -> (r: u128)
    requires
        spec_farm_accumulated(old(position).shares as int, settled_pool.acc_reward_per_share as int)
            <= u128::MAX,
    ensures
        r == spec_position_pending(*old(position), *settled_pool),
        *final(position) == (FarmPosition {
            accrued_reward_units: sat_add(old(position).accrued_reward_units as int, r as int) as u128,
            reward_debt: spec_farm_accumulated(
                old(position).shares as int,
                settled_pool.acc_reward_per_share as int,
            ) as u128,
            updated_ns: now_ns,
            ..*old(position)
        }),
{
    let accumulated = farm_position_accumulated(position.shares, settled_pool.acc_reward_per_share);
    let pending = accumulated.saturating_sub(position.reward_debt);
    position.accrued_reward_units = position.accrued_reward_units.saturating_add(pending);
    position.reward_debt = accumulated;
    position.updated_ns = now_ns;
    pending
}

/// Reward units a position would hold if settled now: booked plus pending.
pub fn preview_farm_position_pending(position: &FarmPosition, settled_pool: &FarmPool) -> (r: u128)
    requires
        spec_farm_accumulated(position.shares as int, settled_pool.acc_reward_per_share as int)
            <= u128::MAX,
    ensures
        r == sat_add(
            position.accrued_reward_units as int,
            spec_position_pending(*position, *settled_pool),
        ),
{
    let accumulated = farm_position_accumulated(position.shares, settled_pool.acc_reward_per_share);
    position.accrued_reward_units.saturating_add(accumulated.saturating_sub(position.reward_debt))
}

/// An active position with shares is valued on its validator and previewed against the settled
/// pool; otherwise it shows no stake and its booked rewards.
pub fn farm_position_view(position: FarmPosition, validator: &Validator, settled_pool: &FarmPool) -> (r:
    FarmPositionView)
    requires
        spec_near_from_shares(
            position.shares as int,
            validator.spec_net_stake(),
            validator.total_shares as int,
        ) <= u128::MAX,
        spec_farm_accumulated(position.shares as int, settled_pool.acc_reward_per_share as int)
            <= u128::MAX,
    ensures
        ({
            let live = position.status == FarmStatus::Active && position.shares > 0;
            let pending = if live {
                sat_add(
                    position.accrued_reward_units as int,
                    spec_position_pending(position, *settled_pool),
                )
            } else {
                position.accrued_reward_units as int
            };
            &&& r.staked_near_amount == if live {
                spec_near_from_shares(
                    position.shares as int,
                    validator.spec_net_stake(),
                    validator.total_shares as int,
                )
            } else {
                0
            }
            &&& r.pending_reward_units == pending
            &&& r.total_earned_reward_units == pending
            &&& r.account_id == position.account_id
            &&& r.product_id == position.product_id
            &&& r.price_id == position.price_id
            &&& r.validator_id == position.validator_id
            &&& r.shares == position.shares
            &&& r.reward_debt == position.reward_debt
            &&& r.accrued_reward_units == position.accrued_reward_units
            &&& r.status == position.status
            &&& r.created_ns == position.created_ns
            &&& r.updated_ns == position.updated_ns
        }),
{
    let live = position.status == FarmStatus::Active && position.shares > 0;
    let staked = if live {
        near_from_shares(position.shares, validator.net_stake_yocto(), validator.total_shares)
    } else {
        0
    };
    let pending = if live {
        preview_farm_position_pending(&position, settled_pool)
    } else {
        position.accrued_reward_units
    };
    FarmPositionView {
        account_id: position.account_id,
        product_id: position.product_id,
        price_id: position.price_id,
        validator_id: position.validator_id,
        shares: position.shares,
        staked_near_amount: staked,
        reward_debt: position.reward_debt,
        accrued_reward_units: position.accrued_reward_units,
        pending_reward_units: pending,
        total_earned_reward_units: pending,
        status: position.status,
        created_ns: position.created_ns,
        updated_ns: position.updated_ns,
    }
}

pub open spec fn spec_view_live(v: FarmPositionView) -> bool {
    v.status == FarmStatus::Active && v.shares > 0
}

/// Sum (saturating) of pending units over the active, non-empty positions.
pub open spec fn spec_active_pending_sum(views: Seq<FarmPositionView>) -> int
    decreases views.len(),
{
    if views.len() == 0 {
        0
    } else {
        let rest = spec_active_pending_sum(views.drop_last());
        if spec_view_live(views.last()) {
            sat_add(rest, views.last().pending_reward_units as int)
        } else {
            rest
        }
    }
}

/// The active, non-empty positions, in order.
pub open spec fn spec_active_views(views: Seq<FarmPositionView>) -> Seq<FarmPositionView>
    decreases views.len(),
{
    if views.len() == 0 {
        Seq::empty()
    } else {
        let rest = spec_active_views(views.drop_last());
        if spec_view_live(views.last()) {
            rest.push(views.last())
        } else {
            rest
        }
    }
}

fn copy_view(v: &FarmPositionView) -> (r: FarmPositionView)
    ensures
        r == *v,
{
    FarmPositionView {
        account_id: v.account_id.clone(),
        product_id: v.product_id.clone(),
        price_id: v.price_id.clone(),
        validator_id: v.validator_id.clone(),
        shares: v.shares,
        staked_near_amount: v.staked_near_amount,
        reward_debt: v.reward_debt,
        accrued_reward_units: v.accrued_reward_units,
        pending_reward_units: v.pending_reward_units,
        total_earned_reward_units: v.total_earned_reward_units,
        status: v.status,
        created_ns: v.created_ns,
        updated_ns: v.updated_ns,
    }
}

/// The account's farm summary from its position views: booked rewards of closed positions plus
/// the pending units of active ones, listing the active positions in order.
pub fn get_farm_account(account_id: AccountId, account: Option<&FarmAccount>, views: &Vec<FarmPositionView>) -> (r:
    FarmAccountView)
    ensures
        ({
            let booked = match account {
                Some(a) => a.accumulated_reward_units as int,
                None => 0,
            };
            &&& r.account_id == account_id
            &&& r.accumulated_reward_units == booked
            &&& r.pending_reward_units == spec_active_pending_sum(views@)
            &&& r.total_earned_reward_units == sat_add(booked, spec_active_pending_sum(views@))
            &&& r.active_positions@ == spec_active_views(views@)
        }),
{
    let booked: u128 = match account {
        Some(a) => a.accumulated_reward_units,
        None => 0,
    };
    let mut unclaimed: u128 = 0;
    let mut active: Vec<FarmPositionView> = Vec::new();
    let mut i: usize = 0;
    while i < views.len()
        invariant
            i <= views@.len(),
            unclaimed == spec_active_pending_sum(views@.take(i as int)),
            active@ == spec_active_views(views@.take(i as int)),
        decreases views@.len() - i,
    {
        let v = &views[i];
        proof {
            assert(views@.take(i + 1).drop_last() =~= views@.take(i as int));
            assert(views@.take(i + 1).last() == views@[i as int]);
        }
        if v.status == FarmStatus::Active && v.shares > 0 {
            unclaimed = unclaimed.saturating_add(v.pending_reward_units);
            active.push(copy_view(v));
        }
        i = i + 1;
    }
    proof {
        assert(views@.take(views@.len() as int) =~= views@);
    }
    FarmAccountView {
        account_id,
        accumulated_reward_units: booked,
        pending_reward_units: unclaimed,
        total_earned_reward_units: booked.saturating_add(unclaimed),
        active_positions: active,
    }
}

/// A farm price must be a farm-type price of the product.
pub fn require_farm_price_for_product(price: &Price, product_id: &ProductId) -> (r: Result<(), ContractError>)
    ensures
        r == if price.price_type != PriceType::Farm {
            Err(ContractError::NotFarmPrice)
        } else if price.product_id@ != product_id@ {
            Err(ContractError::FarmPriceForeign)
        } else {
            Ok(())
        },
{
    if price.price_type != PriceType::Farm {
        return Err(ContractError::NotFarmPrice);
    }
    if price.product_id != *product_id {
        return Err(ContractError::FarmPriceForeign);
    }
    Ok(())
}

pub open spec fn spec_active_farm(p: Price) -> bool {
    p.price_type == PriceType::Farm && p.status == CatalogStatus::Active
}

/// Number of active farm prices among `prices`.
pub open spec fn spec_active_farm_count(prices: Seq<Price>) -> nat
    decreases prices.len(),
{
    if prices.len() == 0 {
        0
    } else {
        spec_active_farm_count(prices.drop_last()) + if spec_active_farm(prices.last()) {
            1nat
        } else {
            0nat
        }
    }
}

/// The farm price a stake uses: the named one, which must be an active farm price of the
/// product, or else the product's only active farm price. `named` is the record of the named
/// price; `candidates` are the stored prices listed on the product, in order.
pub fn resolve_farm_price_id(
    product_id: &ProductId,
    price_id: Option<PriceId>,
    named: Option<&Price>,
    product_found: bool,
    candidates: &Vec<Price>,
) -> (r: Result<PriceId, ContractError>)
    ensures
        match price_id {
            Some(pid) => r == match named {
                None => Err(ContractError::PriceNotFound),
                Some(p) => if p.price_type != PriceType::Farm {
                    Err(ContractError::NotFarmPrice)
                } else if p.product_id@ != product_id@ {
                    Err(ContractError::FarmPriceForeign)
                } else if p.status != CatalogStatus::Active {
                    Err(ContractError::FarmPriceInactive)
                } else {
                    Ok(pid)
                },
            },
            None => if !product_found {
                r == Err::<PriceId, ContractError>(ContractError::ProductNotFound)
            } else if spec_active_farm_count(candidates@) == 0 {
                r == Err::<PriceId, ContractError>(ContractError::NoActiveFarmPrice)
            } else if spec_active_farm_count(candidates@) > 1 {
                r == Err::<PriceId, ContractError>(ContractError::MultipleActiveFarmPrices)
            } else {
                r matches Ok(id) && exists|i: int|
                    0 <= i < candidates@.len() && spec_active_farm(#[trigger] candidates@[i])
                        && candidates@[i].price_id == id
            },
        },
{
    match price_id {
        Some(pid) => {
            let p = match named {
                Some(p) => p,
                None => {
                    return Err(ContractError::PriceNotFound);
                },
            };
            match require_farm_price_for_product(p, product_id) {
                Ok(()) => {},
                Err(e) => {
                    return Err(e);
                },
            }
            if p.status != CatalogStatus::Active {
                return Err(ContractError::FarmPriceInactive);
            }
            Ok(pid)
        },
        None => {
            if !product_found {
                return Err(ContractError::ProductNotFound);
            }
            let mut found: Option<PriceId> = None;
            let mut i: usize = 0;
            while i < candidates.len()
                invariant
                    price_id is None,
                    product_found,
                    i <= candidates@.len(),
                    spec_active_farm_count(candidates@.take(i as int)) <= 1,
                    found is None <==> spec_active_farm_count(candidates@.take(i as int)) == 0,
                    found matches Some(id) ==> exists|k: int|
                        0 <= k < i && spec_active_farm(#[trigger] candidates@[k])
                            && candidates@[k].price_id == id,
                decreases candidates@.len() - i,
            {
                proof {
                    assert(candidates@.take(i + 1).drop_last() =~= candidates@.take(i as int));
                    assert(candidates@.take(i + 1).last() == candidates@[i as int]);
                }
                let c = &candidates[i];
                if c.price_type == PriceType::Farm && c.status == CatalogStatus::Active {
                    if found.is_some() {
                        proof {
                            assert(spec_active_farm_count(candidates@.take(i + 1)) == 2);
                            lemma_active_farm_count_mono(candidates@, i as int + 1);
                        }
                        return Err(ContractError::MultipleActiveFarmPrices);
                    }
                    found = Some(c.price_id.clone());
                }
                i = i + 1;
            }
            proof {
                assert(candidates@.take(candidates@.len() as int) =~= candidates@);
            }
            match found {
                Some(id) => Ok(id),
                None => Err(ContractError::NoActiveFarmPrice),
            }
        },
    }
}

proof fn lemma_active_farm_count_mono(s: Seq<Price>, i: int)
    requires
        0 <= i <= s.len(),
    ensures
        spec_active_farm_count(s.take(i)) <= spec_active_farm_count(s),
    decreases s.len() - i,
{
    if i < s.len() {
        lemma_active_farm_count_mono(s, i + 1);
        assert(s.take(i + 1).drop_last() =~= s.take(i));
    } else {
        assert(s.take(i) =~= s);
    }
}

/// A product may gain a farm price only when none of its prices is an active farm price.
pub fn require_no_active_farm_price_for_product(prices: &Vec<Price>) -> (r: Result<(), ContractError>)
    ensures
        r == if (exists|i: int| 0 <= i < prices@.len() && spec_active_farm(#[trigger] prices@[i])) {
            Err(ContractError::ActiveFarmPriceExists)
        } else {
            Ok(())
        },
{
    let mut i: usize = 0;
    while i < prices.len()
        invariant
            i <= prices@.len(),
            forall|k: int| 0 <= k < i ==> !spec_active_farm(#[trigger] prices@[k]),
        decreases prices@.len() - i,
    {
        if prices[i].price_type == PriceType::Farm && prices[i].status == CatalogStatus::Active {
            return Err(ContractError::ActiveFarmPriceExists);
        }
        i = i + 1;
    }
    Ok(())
}

/// The position exists, is active and holds shares.
pub fn require_active_farm_position(position: Option<&FarmPosition>) -> (r: Result<(), ContractError>)
    ensures
        r == match position {
            None => Err(ContractError::FarmPositionNotFound),
            Some(p) => if p.status != FarmStatus::Active {
                Err(ContractError::FarmPositionNotActive)
            } else if p.shares == 0 {
                Err(ContractError::FarmPositionEmpty)
            } else {
                Ok(())
            },
        },
{
    match position {
        None => Err(ContractError::FarmPositionNotFound),
        Some(p) => if p.status != FarmStatus::Active {
            Err(ContractError::FarmPositionNotActive)
        } else if p.shares == 0 {
            Err(ContractError::FarmPositionEmpty)
        } else {
            Ok(())
        },
    }
}

/// NEAR value of an active position on its validator (zero otherwise).
pub open spec fn spec_active_position_near(position: Option<FarmPosition>, v: Validator) -> int {
    match position {
        Some(p) => if p.status == FarmStatus::Active {
            spec_near_from_shares(p.shares as int, v.spec_net_stake(), v.total_shares as int)
        } else {
            0
        },
        None => 0,
    }
}

/// A farm price's `max_amount` caps the active position's value plus the new deposit.
pub fn validate_farm_max_amount(
    price: &Price,
    position: Option<&FarmPosition>,
    validator: &Validator,
    deposit: u128,
) -> (r: Result<(), ContractError>)
    requires
        spec_active_position_near(opt_ref(position), *validator) <= u128::MAX,
    ensures
        r == match price.spec_max_amount() {
            None => Ok(()),
            Some(m) => if sat_add(spec_active_position_near(opt_ref(position), *validator), deposit as int)
                > m {
                Err(ContractError::FarmAboveMaximum)
            } else {
                Ok(())
            },
        },
{
    let m = match price.max_amount() {
        None => {
            return Ok(());
        },
        Some(m) => m,
    };
    let current: u128 = match position {
        Some(p) => if p.status == FarmStatus::Active {
            near_from_shares(p.shares, validator.net_stake_yocto(), validator.total_shares)
        } else {
            0
        },
        None => 0,
    };
    if current.saturating_add(deposit) > m {
        Err(ContractError::FarmAboveMaximum)
    } else {
        Ok(())
    }
}

/// Shares an unstake of `amount` burns: all of them when no amount is named or the amount
/// reaches the position's value, otherwise the rounded-up share value of the amount.
pub open spec fn spec_unstake_shares(position: FarmPosition, v: Validator, amount: Option<u128>) -> Result<
    u128,
    ContractError,
> {
    match amount {
        None => Ok(position.shares),
        Some(a) => if a == 0 {
            Err(ContractError::FarmUnstakeZero)
        } else if v.spec_net_stake() == 0 {
            Err(ContractError::FarmNoEffectiveStake)
        } else if a >= spec_near_from_shares(
            position.shares as int,
            v.spec_net_stake(),
            v.total_shares as int,
        ) {
            Ok(position.shares)
        } else {
            Ok(
                spec_shares_for_amount_ceil(
                    a as int,
                    v.total_shares as int,
                    v.spec_net_stake(),
                    position.shares as int,
                ) as u128,
            )
        },
    }
}

pub fn farm_unstake_shares_for_amount(position: &FarmPosition, validator: &Validator, amount: Option<u128>) -> (r:
    Result<u128, ContractError>)
    requires
        position.shares >= 1,
        spec_near_from_shares(
            position.shares as int,
            validator.spec_net_stake(),
            validator.total_shares as int,
        ) <= u128::MAX,
        amount matches Some(a) ==> (validator.spec_net_stake() > 0 ==> a * validator.total_shares
            / validator.spec_net_stake() <= u128::MAX),
    ensures
        r == spec_unstake_shares(*position, *validator, amount),
{
    let a = match amount {
        None => {
            return Ok(position.shares);
        },
        Some(a) => a,
    };
    if a == 0 {
        return Err(ContractError::FarmUnstakeZero);
    }
    let net = validator.net_stake_yocto();
    if net == 0 {
        return Err(ContractError::FarmNoEffectiveStake);
    }
    let position_near = near_from_shares(position.shares, net, validator.total_shares);
    if a >= position_near {
        return Ok(position.shares);
    }
    Ok(farm_shares_for_amount_ceil(a, validator.total_shares, net, position.shares))
}

/// An empty farm summary for an account that has none yet.
pub open spec fn spec_farm_account_or_new(account: Option<FarmAccount>, account_id: AccountId, now_ns: u64) -> FarmAccount {
    match account {
        Some(a) => a,
        None => FarmAccount {
            account_id,
            accumulated_reward_units: 0,
            active_position_count: 0,
            last_update_ns: now_ns,
        },
    }
}

fn farm_account_or_new(account: Option<FarmAccount>, account_id: &AccountId, now_ns: u64) -> (r: FarmAccount)
    ensures
        r == spec_farm_account_or_new(account, *account_id, now_ns),
{
    match account {
        Some(a) => a,
        None => FarmAccount {
            account_id: account_id.clone(),
            accumulated_reward_units: 0,
            active_position_count: 0,
            last_update_ns: now_ns,
        },
    }
}

/// The position after its pending rewards are booked against the settled pool.
pub open spec fn spec_settled_position(position: FarmPosition, settled_pool: FarmPool, now_ns: u64) -> FarmPosition {
    FarmPosition {
        accrued_reward_units: sat_add(
            position.accrued_reward_units as int,
            spec_position_pending(position, settled_pool),
        ) as u128,
        reward_debt: spec_farm_accumulated(
            position.shares as int,
            settled_pool.acc_reward_per_share as int,
        ) as u128,
        updated_ns: now_ns,
        ..position
    }
}

proof fn lemma_accumulated_mono(a: u128, b: u128, acc: u128)
    requires
        a <= b,
    ensures
        spec_farm_accumulated(a as int, acc as int) <= spec_farm_accumulated(b as int, acc as int),
{
    vstd::arithmetic::mul::lemma_mul_inequality(a as int, b as int, acc as int);
    vstd::arithmetic::div_mod::lemma_div_is_ordered(
        a * acc,
        b * acc,
        FARM_ACC_REWARD_PER_SHARE_DENOM as int,
    );
}

/// What an unstake from a farm position hands back.
#[derive(Debug)]
pub struct FarmUnstakeCommit {
    /// NEAR queued to leave the pool.
    pub near: u128,
    /// The account's remaining shares on the validator.
    pub user_shares: u128,
    /// The account's farm summary, when the position closed.
    pub farm_account: Option<FarmAccount>,
}

/// Why a farm unstake is refused, if it is.
pub open spec fn spec_farm_unstake_error(
    position: FarmPosition,
    validator_id: Seq<char>,
    shares_remove: int,
    settled_shares_pool: int,
    v: Validator,
    user_shares: int,
) -> Option<ContractError> {
    if position.status != FarmStatus::Active {
        Some(ContractError::FarmPositionNotActive)
    } else if position.shares == 0 {
        Some(ContractError::FarmPositionEmpty)
    } else if position.validator_id@ != validator_id {
        Some(ContractError::FarmValidatorMismatch)
    } else if position.shares < shares_remove {
        Some(ContractError::FarmSharesExceeded)
    } else if spec_unstake_error(v, user_shares, shares_remove) is Some {
        spec_unstake_error(v, user_shares, shares_remove)
    } else if settled_shares_pool < shares_remove {
        Some(ContractError::FarmPoolUnderflow)
    } else {
        None
    }
}

/// Unstakes `shares_remove` shares of an active farm position after settlement: books its
/// rewards against the settled pool, burns the shares into the unstake queue, and shrinks the
/// pool and the position. A position left without shares closes and its booked rewards move
/// to the account's farm summary.
pub fn commit_farm_unstake(
    account_id: &AccountId,
    validator_id: &ValidatorId,
    shares_remove: u128,
    position: &mut FarmPosition,
    pool: &mut FarmPool,
    validator: &mut Validator,
    user_shares: u128,
    tranches: &mut Vec<crate::types::PendingUnstakeTranche>,
    farm_account: Option<FarmAccount>,
    now_ns: u64,
    current_epoch: u64,
    settle_epochs: u64,
) -> (r: Result<FarmUnstakeCommit, ContractError>)
    requires
        spec_settle_fits(*old(pool), *old(validator), now_ns as int),
        spec_farm_accumulated(
            old(position).shares as int,
            spec_settled_pool(*old(pool), *old(validator), now_ns as int).acc_reward_per_share as int,
        ) <= u128::MAX,
    ensures
        ({
            let settled = spec_settled_pool(*old(pool), *old(validator), now_ns as int);
            let pos1 = spec_settled_position(*old(position), settled, now_ns);
            let err = spec_farm_unstake_error(
                *old(position),
                validator_id@,
                shares_remove as int,
                settled.total_farm_shares as int,
                *old(validator),
                user_shares as int,
            );
            let left = pos1.shares - shares_remove;
            &&& r is Err <==> err is Some
            &&& r matches Err(e) ==> err == Some(e)
            &&& r matches Ok(c) ==> {
                &&& c.near == crate::validators::spec_unstake_near(*old(validator), shares_remove as int)
                &&& c.user_shares == user_shares - shares_remove
                &&& *final(pool) == (FarmPool {
                    total_farm_shares: (settled.total_farm_shares - shares_remove) as u128,
                    ..settled
                })
                &&& final(position).shares == left
                &&& final(position).reward_debt == spec_farm_accumulated(
                    left,
                    settled.acc_reward_per_share as int,
                )
                &&& final(position).updated_ns == now_ns
                &&& left > 0 ==> c.farm_account is None && final(position).status
                    == FarmStatus::Active && final(position).accrued_reward_units
                    == pos1.accrued_reward_units
                &&& left == 0 ==> {
                    let base = spec_farm_account_or_new(farm_account, *account_id, 0);
                    &&& final(position).status == FarmStatus::Closed
                    &&& final(position).accrued_reward_units == 0
                    &&& c.farm_account == Some(
                        FarmAccount {
                            accumulated_reward_units: sat_add(
                                base.accumulated_reward_units as int,
                                pos1.accrued_reward_units as int,
                            ) as u128,
                            active_position_count: sat_sub(base.active_position_count as int, 1) as u32,
                            last_update_ns: now_ns,
                            ..base
                        },
                    )
                }
                &&& *final(position) == (FarmPosition {
                    shares: final(position).shares,
                    reward_debt: final(position).reward_debt,
                    accrued_reward_units: final(position).accrued_reward_units,
                    status: final(position).status,
                    ..pos1
                })
            }
        }),
        r is Err ==> *final(validator) == *old(validator) && final(tranches)@ == old(tranches)@,
        r is Ok ==> crate::validators::spec_unstaked(
            *old(validator),
            *final(validator),
            old(tranches)@,
            final(tranches)@,
            *account_id,
            shares_remove as int,
            current_epoch as int,
            settle_epochs as int,
        ),
        r is Err && (old(position).status != FarmStatus::Active || old(position).shares == 0)
            ==> *final(pool) == *old(pool) && *final(position) == *old(position),
        r is Err && old(position).status == FarmStatus::Active && old(position).shares > 0 ==> *final(pool)
            == spec_settled_pool(*old(pool), *old(validator), now_ns as int) && *final(position)
            == spec_settled_position(
            *old(position),
            spec_settled_pool(*old(pool), *old(validator), now_ns as int),
            now_ns,
        ),
{
    match require_active_farm_position(Some(&*position)) {
        Ok(()) => {},
        Err(e) => {
            return Err(e);
        },
    }
    settle_farm_pool(pool, validator, now_ns);
    let _booked = settle_farm_position(position, pool, now_ns);
    if position.validator_id != *validator_id {
        return Err(ContractError::FarmValidatorMismatch);
    }
    if position.shares < shares_remove {
        return Err(ContractError::FarmSharesExceeded);
    }
    if let Some(e) = crate::validators::unstake_error(validator, user_shares, shares_remove) {
        return Err(e);
    }
    if pool.total_farm_shares < shares_remove {
        return Err(ContractError::FarmPoolUnderflow);
    }
    let (near, remaining) = match crate::validators::internal_unstake(
        validator,
        user_shares,
        tranches,
        account_id,
        shares_remove,
        current_epoch,
        settle_epochs,
    ) {
        Ok(x) => x,
        Err(e) => {
            return Err(e);
        },
    };
    pool.total_farm_shares = pool.total_farm_shares - shares_remove;
    let new_shares = position.shares - shares_remove;
    proof {
        lemma_accumulated_mono(new_shares, position.shares, pool.acc_reward_per_share);
    }
    position.shares = new_shares;
    position.reward_debt = farm_position_accumulated(new_shares, pool.acc_reward_per_share);
    position.updated_ns = now_ns;
    let mut closed: Option<FarmAccount> = None;
    if new_shares == 0 {
        let accrued = position.accrued_reward_units;
        let mut account = farm_account_or_new(farm_account, account_id, 0);
        account.accumulated_reward_units = account.accumulated_reward_units.saturating_add(accrued);
        account.active_position_count = account.active_position_count.saturating_sub(1);
        account.last_update_ns = now_ns;
        closed = Some(account);
        position.accrued_reward_units = 0;
        position.status = FarmStatus::Closed;
    }
    Ok(FarmUnstakeCommit { near, user_shares: remaining, farm_account: closed })
}

/// Everything a farm stake commit writes.
#[derive(Debug)]
pub struct FarmStakeCommit {
    pub position: FarmPosition,
    pub pool: FarmPool,
    /// The farm price with one more use.
    pub price: Price,
    /// The product with one more use.
    pub product: Product,
    pub added_shares: u128,
    /// The account's shares on the validator after the mint.
    pub user_shares: u128,
    /// The account's farm summary, when the position (re)opened.
    pub farm_account: Option<FarmAccount>,
    /// Farm positions the account has created.
    pub farm_position_count: u32,
}

/// The position a stake adds to before its shares: the existing one (reset when closed) or a
/// new active position opened now.
pub open spec fn spec_stake_base_position(
    position: Option<FarmPosition>,
    account_id: AccountId,
    product_id: ProductId,
    price_id: PriceId,
    validator_id: ValidatorId,
    now_ns: u64,
) -> FarmPosition {
    match position {
        None => FarmPosition {
            account_id,
            product_id,
            price_id,
            validator_id,
            shares: 0,
            reward_debt: 0,
            accrued_reward_units: 0,
            status: FarmStatus::Active,
            created_ns: now_ns,
            updated_ns: now_ns,
        },
        Some(p) => if p.status == FarmStatus::Closed {
            FarmPosition {
                price_id,
                validator_id,
                shares: 0,
                reward_debt: 0,
                accrued_reward_units: 0,
                status: FarmStatus::Active,
                created_ns: now_ns,
                ..p
            }
        } else {
            p
        },
    }
}

/// The existing position after the settlement that precedes a stake.
pub open spec fn spec_pre_stake_position(position: Option<FarmPosition>, settled: FarmPool, now_ns: u64) -> Option<FarmPosition> {
    match position {
        Some(p) => if p.status == FarmStatus::Active {
            Some(spec_settled_position(p, settled, now_ns))
        } else {
            Some(p)
        },
        None => None,
    }
}

/// Why committing a farm stake is refused, if it is.
pub open spec fn spec_farm_stake_error(
    product_id: Seq<char>,
    validator_id: Seq<char>,
    price: Option<Price>,
    product: Option<Product>,
    position: Option<FarmPosition>,
    pool_found: bool,
    v: Validator,
    deposit: int,
    storage: Result<(), ContractError>,
) -> Option<ContractError> {
    let active = spec_active_price_and_product(price, product);
    if active is Err {
        Some(active->Err_0)
    } else if price.unwrap().price_type != PriceType::Farm {
        Some(ContractError::NotFarmPrice)
    } else if price.unwrap().product_id@ != product_id {
        Some(ContractError::FarmPriceForeign)
    } else if product.unwrap().validator_id@ != validator_id {
        Some(ContractError::FarmCatalogValidatorMismatch)
    } else if price.unwrap().spec_max_amount() matches Some(m) && sat_add(
        spec_active_position_near(position, v),
        deposit,
    ) > m {
        Some(ContractError::FarmAboveMaximum)
    } else if position is None && storage is Err {
        Some(storage->Err_0)
    } else if position matches Some(p) && p.status == FarmStatus::Active && p.shares == 0 {
        Some(ContractError::FarmPositionEmpty)
    } else if !pool_found {
        Some(ContractError::FarmPoolNotFound)
    } else {
        spec_stake_error(v, deposit)
    }
}

/// The arithmetic of a farm stake fits the integer widths used.
pub open spec fn spec_farm_stake_fits(
    position: Option<FarmPosition>,
    pool: FarmPool,
    v: Validator,
    deposit: int,
    now_ns: int,
) -> bool {
    let settled = spec_settled_pool(pool, v, now_ns);
    let minted = spec_stake_minted(v, deposit);
    &&& spec_settle_fits(pool, v, now_ns)
    &&& spec_active_position_near(position, v) <= u128::MAX
    &&& (position matches Some(p) ==> spec_farm_accumulated(
        p.shares as int,
        settled.acc_reward_per_share as int,
    ) <= u128::MAX)
    &&& forall|s: u128|
        s <= sat_add(
            match position {
                Some(p) => p.shares as int,
                None => 0,
            },
            minted,
        ) ==> #[trigger] spec_farm_accumulated(s as int, settled.acc_reward_per_share as int)
            <= u128::MAX
}

/// Commits a farm stake after settlement: re-checks the farm price (active, of the product, on
/// this validator, within its maximum), requires storage for a new position, settles the pool
/// (and the existing active position), mints shares for the deposit, and adds them to the pool
/// and the position. A closed position is reopened fresh; a (re)opened position counts as
/// active in the account's farm summary; a new one counts against storage. `position` and
/// `pool` are the account's position for the product and the price's pool, when stored;
/// `storage` is the storage check for a new position.
pub fn commit_farm_stake(
    account_id: &AccountId,
    deposit: u128,
    product_id: &ProductId,
    price_id: &PriceId,
    validator_id: &ValidatorId,
    price: Option<Price>,
    product: Option<Product>,
    position: Option<FarmPosition>,
    pool: Option<FarmPool>,
    validator: &mut Validator,
    user_shares: u128,
    storage: Result<(), ContractError>,
    farm_account: Option<FarmAccount>,
    farm_position_count: u32,
    account_products: &mut Vec<ProductId>,
    now_ns: u64,
) -> (r: Result<FarmStakeCommit, ContractError>)
    requires
        spec_active_position_near(position, *old(validator)) <= u128::MAX,
        pool matches Some(pl) ==> spec_farm_stake_fits(
            position,
            pl,
            *old(validator),
            deposit as int,
            now_ns as int,
        ),
    ensures
        ({
            let err = spec_farm_stake_error(
                product_id@,
                validator_id@,
                price,
                product,
                position,
                pool is Some,
                *old(validator),
                deposit as int,
                storage,
            );
            &&& r is Err <==> err is Some
            &&& r matches Err(e) ==> err == Some(e)
            &&& r is Err ==> *final(validator) == *old(validator) && final(account_products)@
                == old(account_products)@
            &&& r matches Ok(c) ==> {
                let settled = spec_settled_pool(pool.unwrap(), *old(validator), now_ns as int);
                let minted = spec_stake_minted(*old(validator), deposit as int);
                let base = spec_stake_base_position(
                    spec_pre_stake_position(position, settled, now_ns),
                    *account_id,
                    *product_id,
                    *price_id,
                    *validator_id,
                    now_ns,
                );
                let shares = sat_add(base.shares as int, minted);
                let reopened = match position {
                    Some(p) => p.status != FarmStatus::Active || p.shares == 0,
                    None => true,
                };
                &&& *final(validator) == spec_staked_validator(*old(validator), deposit as int)
                &&& c.added_shares == minted
                &&& c.user_shares == sat_add(user_shares as int, minted)
                &&& c.pool == (FarmPool {
                    total_farm_shares: sat_add(settled.total_farm_shares as int, minted) as u128,
                    ..settled
                })
                &&& c.position == (FarmPosition {
                    shares: shares as u128,
                    reward_debt: spec_farm_accumulated(shares, settled.acc_reward_per_share as int)
                        as u128,
                    updated_ns: now_ns,
                    ..base
                })
                &&& c.price == (Price {
                    usage_count: crate::subscriptions::sat_inc_u64(price.unwrap().usage_count),
                    ..price.unwrap()
                })
                &&& c.product == (Product {
                    usage_count: crate::subscriptions::sat_inc_u64(product.unwrap().usage_count),
                    ..product.unwrap()
                })
                &&& reopened ==> c.farm_account == Some(
                    ({
                        let a = spec_farm_account_or_new(farm_account, *account_id, now_ns);
                        FarmAccount {
                            active_position_count: crate::lock::sat_inc_u32(a.active_position_count),
                            last_update_ns: now_ns,
                            ..a
                        }
                    }),
                )
                &&& !reopened ==> c.farm_account is None
                &&& c.farm_position_count == if position is None {
                    crate::lock::sat_inc_u32(farm_position_count)
                } else {
                    farm_position_count
                }
                &&& seq_has(old(account_products)@, product_id@) ==> final(account_products)@
                    == old(account_products)@
                &&& !seq_has(old(account_products)@, product_id@) ==> final(account_products)@
                    == old(account_products)@.push(*product_id)
            }
        }),
{
    match get_active_price_and_product(
        match &price {
            Some(p) => Some(p),
            None => None,
        },
        match &product {
            Some(p) => Some(p),
            None => None,
        },
    ) {
        Ok(()) => {},
        Err(e) => {
            return Err(e);
        },
    }
    let mut price = price.unwrap();
    let mut product = product.unwrap();
    match require_farm_price_for_product(&price, product_id) {
        Ok(()) => {},
        Err(e) => {
            return Err(e);
        },
    }
    if product.validator_id != *validator_id {
        return Err(ContractError::FarmCatalogValidatorMismatch);
    }
    match validate_farm_max_amount(
        &price,
        match &position {
            Some(p) => Some(p),
            None => None,
        },
        validator,
        deposit,
    ) {
        Ok(()) => {},
        Err(e) => {
            return Err(e);
        },
    }
    let is_new = position.is_none();
    if is_new {
        match storage {
            Ok(()) => {},
            Err(e) => {
                return Err(e);
            },
        }
    }
    let existing_active = match &position {
        Some(p) => p.status == FarmStatus::Active,
        None => false,
    };
    if existing_active {
        match require_active_farm_position(
            match &position {
                Some(p) => Some(p),
                None => None,
            },
        ) {
            Ok(()) => {},
            Err(e) => {
                return Err(e);
            },
        }
    }
    let mut pool = match pool {
        Some(pl) => pl,
        None => {
            return Err(ContractError::FarmPoolNotFound);
        },
    };
    let ghost pool0 = pool;
    settle_farm_pool(&mut pool, validator, now_ns);
    let mut position = position;
    if existing_active {
        match &mut position {
            Some(p) => {
                let _ = settle_farm_position(p, &pool, now_ns);
            },
            None => {},
        }
    }
    let (added, new_user_shares) = match crate::validators::internal_stake(
        validator,
        user_shares,
        deposit,
    ) {
        Ok(x) => x,
        Err(e) => {
            return Err(e);
        },
    };
    pool.total_farm_shares = pool.total_farm_shares.saturating_add(added);
    let was_inactive = match &position {
        Some(p) => p.status != FarmStatus::Active || p.shares == 0,
        None => true,
    };
    let mut pos = match position {
        Some(p) => p,
        None => FarmPosition {
            account_id: account_id.clone(),
            product_id: product_id.clone(),
            price_id: price_id.clone(),
            validator_id: validator_id.clone(),
            shares: 0,
            reward_debt: 0,
            accrued_reward_units: 0,
            status: FarmStatus::Active,
            created_ns: now_ns,
            updated_ns: now_ns,
        },
    };
    if pos.status == FarmStatus::Closed {
        pos.price_id = price_id.clone();
        pos.validator_id = validator_id.clone();
        pos.shares = 0;
        pos.reward_debt = 0;
        pos.accrued_reward_units = 0;
        pos.status = FarmStatus::Active;
        pos.created_ns = now_ns;
    }
    let old_shares = pos.shares;
    pos.shares = pos.shares.saturating_add(added);
    pos.reward_debt = farm_position_accumulated(pos.shares, pool.acc_reward_per_share);
    pos.updated_ns = now_ns;
    let new_account = if was_inactive {
        let mut a = farm_account_or_new(farm_account, account_id, now_ns);
        a.active_position_count = a.active_position_count.saturating_add(1);
        a.last_update_ns = now_ns;
        Some(a)
    } else {
        None
    };
    let count = if is_new {
        farm_position_count.saturating_add(1)
    } else {
        farm_position_count
    };
    push_unique(account_products, product_id);
    price.usage_count = price.usage_count.saturating_add(1);
    product.usage_count = product.usage_count.saturating_add(1);
    Ok(
        FarmStakeCommit {
            position: pos,
            pool,
            price,
            product,
            added_shares: added,
            user_shares: new_user_shares,
            farm_account: new_account,
            farm_position_count: count,
        },
    )
}

/// First checks of a stake call: not paused, base storage prepaid, at least the minimum lock
/// amount attached.
pub fn check_stake_entry(paused: bool, account: Option<&Account>, config: &Config, deposit: u128) -> (r: Result<
    (),
    ContractError,
>)
    ensures
        r == if paused {
            Err(ContractError::Paused)
        } else if account is None {
            Err(ContractError::AccountNotRegistered)
        } else if account.unwrap().storage_deposit < config.min_storage_deposit {
            Err(ContractError::StorageTopUp)
        } else if deposit < config.min_lock_amount {
            Err(ContractError::AttachedBelowMinLock)
        } else {
            Ok(())
        },
{
    if paused {
        return Err(ContractError::Paused);
    }
    match ensure_min_base_storage(account, config) {
        Ok(()) => {},
        Err(e) => {
            return Err(e);
        },
    }
    if deposit < config.min_lock_amount {
        return Err(ContractError::AttachedBelowMinLock);
    }
    Ok(())
}

/// Checks of a stake call once its farm price is resolved: the price and product are active,
/// the price is the product's farm price, the validator is active, the deposit is at least the
/// price amount and within its maximum, an active position keeps its price (a new position
/// needs storage), and the validator is idle.
pub fn check_stake(
    deposit: u128,
    price_id: &PriceId,
    product_id: &ProductId,
    price: Option<&Price>,
    product: Option<&Product>,
    validator: Option<&Validator>,
    position: Option<&FarmPosition>,
    new_position_storage: Result<(), ContractError>,
) -> (r: Result<(), ContractError>)
    requires
        validator matches Some(v) ==> spec_active_position_near(opt_ref(position), *v) <= u128::MAX,
    ensures
        r == ({
            let active = spec_active_price_and_product(opt_ref(price), opt_ref(product));
            if active is Err {
                active
            } else if price.unwrap().price_type != PriceType::Farm {
                Err(ContractError::NotFarmPrice)
            } else if price.unwrap().product_id@ != product_id@ {
                Err(ContractError::FarmPriceForeign)
            } else if validator is None {
                Err(ContractError::ValidatorNotFound)
            } else if validator.unwrap().status != crate::types::ValidatorStatus::Active {
                Err(ContractError::ValidatorNotActiveForLock)
            } else if deposit < price.unwrap().amount {
                Err(ContractError::FarmBelowMinimum)
            } else if price.unwrap().spec_max_amount() matches Some(m) && sat_add(
                spec_active_position_near(opt_ref(position), *validator.unwrap()),
                deposit as int,
            ) > m {
                Err(ContractError::FarmAboveMaximum)
            } else if position matches Some(p) && p.status == FarmStatus::Active && p.price_id@
                != price_id@ {
                Err(ContractError::ExistingFarmPriceDiffers)
            } else if position is None && new_position_storage is Err {
                new_position_storage
            } else if validator.unwrap().tx_status != crate::types::TransactionStatus::Idle {
                Err(ContractError::ValidatorBusy)
            } else {
                Ok(())
            }
        }),
{
    match get_active_price_and_product(price, product) {
        Ok(()) => {},
        Err(e) => {
            return Err(e);
        },
    }
    let p = price.unwrap();
    match require_farm_price_for_product(p, product_id) {
        Ok(()) => {},
        Err(e) => {
            return Err(e);
        },
    }
    let v = match validator {
        None => {
            return Err(ContractError::ValidatorNotFound);
        },
        Some(v) => v,
    };
    match v.check_active_for_lock() {
        Ok(()) => {},
        Err(e) => {
            return Err(e);
        },
    }
    if deposit < p.amount {
        return Err(ContractError::FarmBelowMinimum);
    }
    match validate_farm_max_amount(p, position, v, deposit) {
        Ok(()) => {},
        Err(e) => {
            return Err(e);
        },
    }
    match position {
        Some(pos) => if pos.status == FarmStatus::Active && pos.price_id != *price_id {
            return Err(ContractError::ExistingFarmPriceDiffers);
        },
        None => match new_position_storage {
            Ok(()) => {},
            Err(e) => {
                return Err(e);
            },
        },
    }
    v.check_idle()
}

/// Checks of an unstake call: one attached yocto, not paused, base storage prepaid, an active
/// position with shares, and an idle validator.
pub fn check_unstake_entry(
    attached: u128,
    paused: bool,
    account: Option<&Account>,
    config: &Config,
    position: Option<&FarmPosition>,
    validator: Option<&Validator>,
) -> (r: Result<(), ContractError>)
    ensures
        r == if attached != 1 {
            Err(ContractError::OneYoctoRequired)
        } else if paused {
            Err(ContractError::Paused)
        } else if account is None {
            Err(ContractError::AccountNotRegistered)
        } else if account.unwrap().storage_deposit < config.min_storage_deposit {
            Err(ContractError::StorageTopUp)
        } else if position is None {
            Err(ContractError::FarmPositionNotFound)
        } else if position.unwrap().status != FarmStatus::Active {
            Err(ContractError::FarmPositionNotActive)
        } else if position.unwrap().shares == 0 {
            Err(ContractError::FarmPositionEmpty)
        } else if validator is None {
            Err(ContractError::ValidatorNotFound)
        } else if validator.unwrap().tx_status != crate::types::TransactionStatus::Idle {
            Err(ContractError::ValidatorBusy)
        } else {
            Ok(())
        },
{
    if attached != 1 {
        return Err(ContractError::OneYoctoRequired);
    }
    if paused {
        return Err(ContractError::Paused);
    }
    match ensure_min_base_storage(account, config) {
        Ok(()) => {},
        Err(e) => {
            return Err(e);
        },
    }
    match require_active_farm_position(position) {
        Ok(()) => {},
        Err(e) => {
            return Err(e);
        },
    }
    match validator {
        None => Err(ContractError::ValidatorNotFound),
        Some(v) => v.check_idle(),
    }
}

/// Booking a position's rewards twice against the same settled pool books nothing the second
/// time, and keeps what the first booking recorded.
pub proof fn lemma_position_settle_idempotent(position: FarmPosition, pool: FarmPool, now_ns: u64)
    requires
        spec_farm_accumulated(position.shares as int, pool.acc_reward_per_share as int) <= u128::MAX,
    ensures
        spec_position_pending(spec_settled_position(position, pool, now_ns), pool) == 0,
        spec_settled_position(spec_settled_position(position, pool, now_ns), pool, now_ns)
            == spec_settled_position(position, pool, now_ns),
{
    let p1 = spec_settled_position(position, pool, now_ns);
    assert(p1.reward_debt == spec_farm_accumulated(p1.shares as int, pool.acc_reward_per_share as int));
    assert(spec_position_pending(p1, pool) == 0);
    assert(sat_add(p1.accrued_reward_units as int, 0) == p1.accrued_reward_units);
}

/// The validator shares of the active farm positions on farm price `q`.
pub open spec fn spec_price_farm_shares(positions: Seq<FarmPosition>, q: Seq<char>) -> int
    decreases positions.len(),
{
    if positions.len() == 0 {
        0
    } else {
        spec_price_farm_shares(positions.drop_last(), q) + spec_price_contribution(
            positions.last(),
            q,
        )
    }
}

/// What one position adds to the share total of farm price `q`.
pub open spec fn spec_price_contribution(p: FarmPosition, q: Seq<char>) -> int {
    if p.status == FarmStatus::Active && p.price_id@ == q {
        p.shares as int
    } else {
        0
    }
}

/// Every farm pool (keyed by its price) counts exactly the shares of the active positions on
/// its price.
pub open spec fn spec_pools_count_positions(
    pools: Map<Seq<char>, FarmPool>,
    positions: Seq<FarmPosition>,
) -> bool {
    forall|q: Seq<char>| #[trigger]
        pools.dom().contains(q) ==> pools[q].total_farm_shares as int == spec_price_farm_shares(
            positions,
            q,
        )
}

proof fn lemma_price_shares_nonneg(ps: Seq<FarmPosition>, q: Seq<char>)
    ensures
        spec_price_farm_shares(ps, q) >= 0,
    decreases ps.len(),
{
    if ps.len() > 0 {
        lemma_price_shares_nonneg(ps.drop_last(), q);
    }
}

proof fn lemma_price_shares_update(ps: Seq<FarmPosition>, i: int, x: FarmPosition, q: Seq<char>)
    requires
        0 <= i < ps.len(),
    ensures
        spec_price_farm_shares(ps.update(i, x), q) == spec_price_farm_shares(ps, q)
            - spec_price_contribution(ps[i], q) + spec_price_contribution(x, q),
    decreases ps.len(),
{
    let ps2 = ps.update(i, x);
    if i == ps.len() - 1 {
        assert(ps2.drop_last() =~= ps.drop_last());
    } else {
        assert(ps2.drop_last() =~= ps.drop_last().update(i, x));
        lemma_price_shares_update(ps.drop_last(), i, x, q);
    }
}

proof fn lemma_price_shares_push(ps: Seq<FarmPosition>, x: FarmPosition, q: Seq<char>)
    ensures
        spec_price_farm_shares(ps.push(x), q) == spec_price_farm_shares(ps, q)
            + spec_price_contribution(x, q),
{
    assert(ps.push(x).drop_last() =~= ps);
}

/// A position's contribution to its price's total is at most that total.
proof fn lemma_price_contribution_bounded(ps: Seq<FarmPosition>, i: int, q: Seq<char>)
    requires
        0 <= i < ps.len(),
    ensures
        spec_price_contribution(ps[i], q) <= spec_price_farm_shares(ps, q),
{
    let closed = FarmPosition { status: FarmStatus::Closed, ..ps[i] };
    lemma_price_shares_update(ps, i, closed, q);
    lemma_price_shares_nonneg(ps.update(i, closed), q);
}

/// A farm stake keeps every pool's share total equal to the shares of the active positions on its
/// price: when that held before, it holds after the stake with the pool of `price_id` replaced by
/// the committed pool and the staked position (index `i` of `positions`, or a new one when `i` is
/// their number) by the committed position (see [`commit_farm_stake`]); an active position being
/// staked on is on `price_id`, and the pool's total plus the minted shares fits in a `u128`.
pub proof fn lemma_farm_stake_keeps_pool_totals(
    positions: Seq<FarmPosition>,
    i: int,
    pools: Map<Seq<char>, FarmPool>,
    v: Validator,
    deposit: u128,
    now_ns: u64,
    account_id: AccountId,
    product_id: ProductId,
    price_id: PriceId,
    validator_id: ValidatorId,
)
    requires
        0 <= i <= positions.len(),
        spec_pools_count_positions(pools, positions),
        pools.dom().contains(price_id@),
        i < positions.len() && positions[i].status == FarmStatus::Active ==> positions[i].price_id@
            == price_id@,
        pools[price_id@].total_farm_shares + spec_stake_minted(v, deposit as int) <= u128::MAX,
    ensures
        ({
            let position = if i < positions.len() {
                Some(positions[i])
            } else {
                None
            };
            let settled = spec_settled_pool(pools[price_id@], v, now_ns as int);
            let minted = spec_stake_minted(v, deposit as int);
            let base = spec_stake_base_position(
                spec_pre_stake_position(position, settled, now_ns),
                account_id,
                product_id,
                price_id,
                validator_id,
                now_ns,
            );
            let shares = sat_add(base.shares as int, minted);
            let committed = FarmPosition {
                shares: shares as u128,
                reward_debt: spec_farm_accumulated(shares, settled.acc_reward_per_share as int) as u128,
                updated_ns: now_ns,
                ..base
            };
            let after = if i < positions.len() {
                positions.update(i, committed)
            } else {
                positions.push(committed)
            };
            let committed_pool = FarmPool {
                total_farm_shares: sat_add(settled.total_farm_shares as int, minted) as u128,
                ..settled
            };
            spec_pools_count_positions(pools.insert(price_id@, committed_pool), after)
        }),
{
    let p = price_id@;
    let position = if i < positions.len() {
        Some(positions[i])
    } else {
        None
    };
    let pool = pools[p];
    let settled = spec_settled_pool(pool, v, now_ns as int);
    let minted = spec_stake_minted(v, deposit as int);
    assert(minted >= 0);
    assert(settled.total_farm_shares == pool.total_farm_shares);
    let base = spec_stake_base_position(
        spec_pre_stake_position(position, settled, now_ns),
        account_id,
        product_id,
        price_id,
        validator_id,
        now_ns,
    );
    assert(base.status == FarmStatus::Active);
    assert(base.price_id@ == p);
    let shares = sat_add(base.shares as int, minted);
    let committed = FarmPosition {
        shares: shares as u128,
        reward_debt: spec_farm_accumulated(shares, settled.acc_reward_per_share as int) as u128,
        updated_ns: now_ns,
        ..base
    };
    let after = if i < positions.len() {
        positions.update(i, committed)
    } else {
        positions.push(committed)
    };
    let committed_pool = FarmPool {
        total_farm_shares: sat_add(settled.total_farm_shares as int, minted) as u128,
        ..settled
    };
    let pools2 = pools.insert(p, committed_pool);
    if i < positions.len() {
        assert(base.shares as int == spec_price_contribution(positions[i], p));
        lemma_price_contribution_bounded(positions, i, p);
    }
    assert(shares == base.shares + minted);
    assert forall|q: Seq<char>| #[trigger]
        pools2.dom().contains(q) implies pools2[q].total_farm_shares as int
        == spec_price_farm_shares(after, q) by {
        assert(pools.dom().contains(q));
        if i < positions.len() {
            lemma_price_shares_update(positions, i, committed, q);
            if q != p {
                assert(spec_price_contribution(positions[i], q) == 0);
            }
        } else {
            lemma_price_shares_push(positions, committed, q);
        }
    }
}

/// A farm unstake keeps every pool's share total equal to the shares of the active positions on
/// its price: the pool of the unstaked position's price (whose settlement keeps its share total)
/// and the position (index `i`) both lose the burned shares, and a position left without shares
/// closes (see [`commit_farm_unstake`]).
pub proof fn lemma_farm_unstake_keeps_pool_totals(
    positions: Seq<FarmPosition>,
    i: int,
    shares_remove: u128,
    committed: FarmPosition,
    pools: Map<Seq<char>, FarmPool>,
    v: Validator,
    now_ns: u64,
)
    requires
        0 <= i < positions.len(),
        spec_pools_count_positions(pools, positions),
        pools.dom().contains(positions[i].price_id@),
        positions[i].status == FarmStatus::Active,
        positions[i].shares >= shares_remove,
        committed.price_id == positions[i].price_id,
        committed.shares == positions[i].shares - shares_remove,
        committed.shares > 0 ==> committed.status == FarmStatus::Active,
        committed.shares == 0 ==> committed.status == FarmStatus::Closed,
    ensures
        ({
            let p = positions[i].price_id@;
            let settled = spec_settled_pool(pools[p], v, now_ns as int);
            let committed_pool = FarmPool {
                total_farm_shares: (settled.total_farm_shares - shares_remove) as u128,
                ..settled
            };
            spec_pools_count_positions(
                pools.insert(p, committed_pool),
                positions.update(i, committed),
            )
        }),
{
    let p = positions[i].price_id@;
    let settled = spec_settled_pool(pools[p], v, now_ns as int);
    assert(settled.total_farm_shares == pools[p].total_farm_shares);
    let committed_pool = FarmPool {
        total_farm_shares: (settled.total_farm_shares - shares_remove) as u128,
        ..settled
    };
    lemma_price_contribution_bounded(positions, i, p);
    let pools2 = pools.insert(p, committed_pool);
    assert forall|q: Seq<char>| #[trigger]
        pools2.dom().contains(q) implies pools2[q].total_farm_shares as int
        == spec_price_farm_shares(positions.update(i, committed), q) by {
        assert(pools.dom().contains(q));
        lemma_price_shares_update(positions, i, committed, q);
    }
}

} // verus!
