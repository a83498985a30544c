//! Share minting and redemption, withdraw-batch crediting, and the catalog lock-weight check.
//!
//! All products are taken in 256 bits, so `a * b / c` is exact before flooring.

use crate::u256::{div_rem, wide_mul, U256};
use vstd::prelude::*;

verus! {

/// Fixed-point denominator for a price's `lock_factor_near_months`.
pub const LOCK_FACTOR_DENOM: u128 = 1_000_000_000_000_000_000_000_000;

/// Nanoseconds in one day.
pub const NS_PER_DAY: u128 = 86_400_000_000_000;

/// Nanoseconds in one day, as a block-timestamp width.
pub const NS_PER_DAY_TIMESTAMP: u64 = 86_400_000_000_000;

/// Average Gregorian month in nanoseconds: 30.4375 days, `NS_PER_DAY * 487 / 16`.
pub const AVG_MONTH_NS: u128 = 2_629_800_000_000_000;

/// Smallest `min_lock_amount` the contract accepts: 1 NEAR in yocto.
pub const PROTOCOL_MIN_LOCK_AMOUNT_YOCTO: u128 = 1_000_000_000_000_000_000_000_000;

pub open spec fn sat_add(a: int, b: int) -> int {
    if a + b > u128::MAX {
        u128::MAX as int
    } else {
        a + b
    }
}

pub open spec fn sat_sub(a: int, b: int) -> int {
    if a >= b {
        a - b
    } else {
        0
    }
}

pub open spec fn sat_mul(a: int, b: int) -> int {
    if a * b > u128::MAX {
        u128::MAX as int
    } else {
        a * b
    }
}

/// `a * b`, saturating at `u128::MAX`.
pub fn saturating_mul_u128(a: u128, b: u128) -> (r: u128)
    ensures
        r == sat_mul(a as int, b as int),
{
    match a.checked_mul(b) {
        Some(p) => p,
        None => u128::MAX,
    }
}

/// Shares minted for a deposit: one share per yocto for the first deposit (or when there is
/// no backing to price against), otherwise `deposit * total_shares / effective_total`, floored.
pub open spec fn spec_mint_shares(total_shares: int, effective_total: int, deposit: int) -> int {
    if total_shares == 0 || effective_total == 0 {
        deposit
    } else {
        deposit * total_shares / effective_total
    }
}

/// NEAR backing `shares` out of `total_shares` over `effective_total`, floored; zero when no shares exist.
pub open spec fn spec_near_from_shares(shares: int, effective_total: int, total_shares: int) -> int {
    if total_shares == 0 {
        0
    } else {
        shares * effective_total / total_shares
    }
}

/// Credit for one user from a withdraw batch: pro-rata floor, capped by both the user's
/// eligible amount and the batch, with a minimum of one yocto when every input is positive.
pub open spec fn spec_withdraw_batch_credit(remaining: int, eligible: int, liability: int) -> int {
    if remaining == 0 || eligible == 0 || liability == 0 {
        0
    } else {
        let raw = remaining * eligible / liability;
        let capped = if raw < eligible {
            if raw < remaining {
                raw
            } else {
                remaining
            }
        } else if eligible < remaining {
            eligible
        } else {
            remaining
        };
        if capped == 0 {
            1
        } else {
            capped
        }
    }
}

/// Required NEAR-months for a price: `amount * lock_factor` (saturating) over the factor denominator.
pub open spec fn spec_required_near_months(amount: int, lock_factor: int) -> int {
    sat_mul(amount, lock_factor) / (LOCK_FACTOR_DENOM as int)
}

/// A lock of `locked` yocto for `duration_ns` satisfies the price's lock weight.
pub open spec fn spec_lock_weight_ok(amount: int, lock_factor: int, locked: int, duration_ns: int) -> bool {
    locked * duration_ns >= spec_required_near_months(amount, lock_factor) * (AVG_MONTH_NS as int)
}

/// Smallest lock satisfying the weight for `duration_ns` (ceiling of the weight over the duration).
pub open spec fn spec_min_locked(amount: int, lock_factor: int, duration_ns: int) -> int {
    if duration_ns == 0 {
        0
    } else {
        let rhs = spec_required_near_months(amount, lock_factor) * (AVG_MONTH_NS as int);
        let q = rhs / duration_ns;
        if rhs % duration_ns == 0 {
            q
        } else if q + 1 > u128::MAX {
            u128::MAX as int
        } else {
            q + 1
        }
    }
}

/// `floor(a * b / c)` with a 256-bit product, when the quotient fits in a `u128`.
pub fn mul_div_floor(a: u128, b: u128, c: u128) -> (r: u128)
    requires
        c > 0,
        a * b / (c as int) <= u128::MAX,
    ensures
        r == a * b / (c as int),
{
    let num = wide_mul(a, b);
    let (q, _rem) = div_rem(num, c);
    proof {
        vstd::arithmetic::div_mod::lemma_fundamental_div_mod_converse_div(
            a * b,
            c as int,
            q.value(),
            _rem as int,
        );
    }
    q.as_u128()
}

/// `floor(a * b / c)` when it fits in a `u128`, `None` otherwise.
pub fn mul_div_floor_checked(a: u128, b: u128, c: u128) -> (r: Option<u128>)
    requires
        c > 0,
    ensures
        r == if a * b / (c as int) <= u128::MAX {
            Some((a * b / (c as int)) as u128)
        } else {
            None::<u128>
        },
{
    let num = wide_mul(a, b);
    let (q, rem) = div_rem(num, c);
    proof {
        vstd::arithmetic::div_mod::lemma_fundamental_div_mod_converse_div(
            a * b,
            c as int,
            q.value(),
            rem as int,
        );
    }
    if q.fits_u128() {
        Some(q.as_u128())
    } else {
        None
    }
}

/// `floor(a * b / c)` and whether the division left a remainder, when the quotient fits.
pub fn mul_div_floor_rem(a: u128, b: u128, c: u128) -> (r: (u128, bool))
    requires
        c > 0,
        a * b / (c as int) <= u128::MAX,
    ensures
        r.0 == a * b / (c as int),
        r.1 == (a * b % (c as int) != 0),
{
    let num = wide_mul(a, b);
    let (q, rem) = div_rem(num, c);
    proof {
        vstd::arithmetic::div_mod::lemma_fundamental_div_mod_converse_div(
            a * b,
            c as int,
            q.value(),
            rem as int,
        );
        vstd::arithmetic::div_mod::lemma_fundamental_div_mod_converse_mod(
            a * b,
            c as int,
            q.value(),
            rem as int,
        );
    }
    (q.as_u128(), rem != 0)
}

/// Shares to mint for `deposit_yocto` against `effective_total` backing.
pub fn mint_shares(total_shares: u128, effective_total: u128, deposit_yocto: u128) -> (r: u128)
    requires
        spec_mint_shares(total_shares as int, effective_total as int, deposit_yocto as int)
            <= u128::MAX,
    ensures
        r == spec_mint_shares(total_shares as int, effective_total as int, deposit_yocto as int),
{
    if total_shares == 0 || effective_total == 0 {
        return deposit_yocto;
    }
    mul_div_floor(deposit_yocto, total_shares, effective_total)
}

/// NEAR (yocto) that `shares` are worth against `effective_total` backing.
pub fn near_from_shares(shares: u128, effective_total: u128, total_shares: u128) -> (r: u128)
    requires
        spec_near_from_shares(shares as int, effective_total as int, total_shares as int)
            <= u128::MAX,
    ensures
        r == spec_near_from_shares(shares as int, effective_total as int, total_shares as int),
{
    if total_shares == 0 {
        return 0;
    }
    mul_div_floor(shares, effective_total, total_shares)
}

/// Pro-rata credit of one withdraw batch toward a user (see [`spec_withdraw_batch_credit`]).
pub fn withdraw_batch_credit_yocto(
    batch_remaining_yocto: u128,
    user_eligible_yocto: u128,
    liability_at_fund_yocto: u128,
) -> (r: u128)
    requires
        batch_remaining_yocto as int * user_eligible_yocto as int / (liability_at_fund_yocto as int)
            <= u128::MAX || liability_at_fund_yocto == 0,
    ensures
        r == spec_withdraw_batch_credit(
            batch_remaining_yocto as int,
            user_eligible_yocto as int,
            liability_at_fund_yocto as int,
        ),
{
    if batch_remaining_yocto == 0 || user_eligible_yocto == 0 || liability_at_fund_yocto == 0 {
        return 0;
    }
    let raw = mul_div_floor(batch_remaining_yocto, user_eligible_yocto, liability_at_fund_yocto);
    let mut credit = if raw < user_eligible_yocto {
        raw
    } else {
        user_eligible_yocto
    };
    credit = if credit < batch_remaining_yocto {
        credit
    } else {
        batch_remaining_yocto
    };
    if credit == 0 {
        credit = 1;
    }
    credit
}

/// Pool-side staked balance plus NEAR queued to stake, saturating.
pub fn effective_stake_yocto(total_staked_balance: u128, pending_to_stake: u128) -> (r: u128)
    ensures
        r == sat_add(total_staked_balance as int, pending_to_stake as int),
{
    total_staked_balance.saturating_add(pending_to_stake)
}

/// Effective stake less all user exit liability, saturating at zero.
pub fn effective_stake_for_share_exit(
    total_staked_balance: u128,
    pending_to_stake: u128,
    pending_user_unstake_total: u128,
) -> (r: u128)
    ensures
        r == sat_sub(
            sat_add(total_staked_balance as int, pending_to_stake as int),
            pending_user_unstake_total as int,
        ),
{
    effective_stake_yocto(total_staked_balance, pending_to_stake).saturating_sub(
        pending_user_unstake_total,
    )
}

/// Required NEAR-months of a price (`amount * lock_factor / LOCK_FACTOR_DENOM`, saturating product).
pub fn required_near_months(amount: u128, lock_factor: u128) -> (r: u128)
    ensures
        r == spec_required_near_months(amount as int, lock_factor as int),
{
    let product = match amount.checked_mul(lock_factor) {
        Some(p) => p,
        None => u128::MAX,
    };
    product / LOCK_FACTOR_DENOM
}

/// Smallest locked amount that passes [`check_lock_weight`] for `duration_ns`.
pub fn min_locked_yocto_for_duration(amount: u128, lock_factor: u128, duration_ns: u128) -> (r: u128)
    requires
        duration_ns == 0 || spec_required_near_months(amount as int, lock_factor as int)
            * (AVG_MONTH_NS as int) / (duration_ns as int) <= u128::MAX,
    ensures
        r == spec_min_locked(amount as int, lock_factor as int, duration_ns as int),
{
    if duration_ns == 0 {
        return 0;
    }
    let required_nm = required_near_months(amount, lock_factor);
    let (q, has_rem) = mul_div_floor_rem(required_nm, AVG_MONTH_NS, duration_ns);
    if has_rem {
        q.saturating_add(1)
    } else {
        q
    }
}

/// Why a lock was refused by the price's lock weight.
#[derive(Clone, Copy, Debug, PartialEq, Eq)]
pub enum PriceLockError {
    /// Locked NEAR or lock duration is too low for this catalog price.
    LockTooSmall,
}

impl PriceLockError {
    /// The text of the refusal.
    pub open spec fn spec_message(&self) -> Seq<char> {
        "Locked NEAR or lock duration is too low for this catalog price"@
    }

    pub fn message(&self) -> (r: &'static str)
        ensures
            r@ == self.spec_message(),
    {
        "Locked NEAR or lock duration is too low for this catalog price"
    }
}

/// Enforces `locked * duration_ns >= required_near_months * AVG_MONTH_NS`.
pub fn check_lock_weight(amount: u128, lock_factor: u128, locked_yocto: u128, duration_ns: u128) -> (r:
    Result<(), PriceLockError>)
    ensures
        r is Ok <==> spec_lock_weight_ok(
            amount as int,
            lock_factor as int,
            locked_yocto as int,
            duration_ns as int,
        ),
        r is Err ==> r == Err::<(), PriceLockError>(PriceLockError::LockTooSmall),
{
    let required_nm = required_near_months(amount, lock_factor);
    let lhs: U256 = wide_mul(locked_yocto, duration_ns);
    let rhs: U256 = wide_mul(required_nm, AVG_MONTH_NS);
    if lhs.ge(&rhs) {
        Ok(())
    } else {
        Err(PriceLockError::LockTooSmall)
    }
}

/// The lock minimum is exact: [`spec_min_locked`] passes the lock-weight check for the
/// duration, and one yocto less does not.
pub proof fn lemma_min_locked_is_least(amount: u128, lock_factor: u128, duration_ns: u128)
    requires
        duration_ns > 0,
        spec_required_near_months(amount as int, lock_factor as int) * (AVG_MONTH_NS as int)
            / (duration_ns as int) < u128::MAX,
    ensures
        spec_lock_weight_ok(
            amount as int,
            lock_factor as int,
            spec_min_locked(amount as int, lock_factor as int, duration_ns as int),
            duration_ns as int,
        ),
        spec_min_locked(amount as int, lock_factor as int, duration_ns as int) > 0 ==> !spec_lock_weight_ok(
            amount as int,
            lock_factor as int,
            spec_min_locked(amount as int, lock_factor as int, duration_ns as int) - 1,
            duration_ns as int,
        ),
{
    let rhs = spec_required_near_months(amount as int, lock_factor as int) * (AVG_MONTH_NS as int);
    let d = duration_ns as int;
    let q = rhs / d;
    let r = rhs % d;
    vstd::arithmetic::div_mod::lemma_fundamental_div_mod(rhs, d);
    assert(0 <= r < d);
    let m = spec_min_locked(amount as int, lock_factor as int, duration_ns as int);
    if r == 0 {
        assert(m == q);
        assert(m * d >= rhs) by (nonlinear_arith)
            requires
                rhs == d * q + r,
                r == 0,
                m == q,
        ;
        if m > 0 {
            assert((m - 1) * d < rhs) by (nonlinear_arith)
                requires
                    rhs == d * q,
                    m == q,
                    d > 0,
            ;
        }
    } else {
        assert(m == q + 1);
        assert(m * d >= rhs) by (nonlinear_arith)
            requires
                rhs == d * q + r,
                r < d,
                m == q + 1,
        ;
        assert((m - 1) * d < rhs) by (nonlinear_arith)
            requires
                rhs == d * q + r,
                r > 0,
                m == q + 1,
        ;
    }
}

/// Minting for a deposit and immediately redeeming the new shares against the grown backing
/// never returns more than was deposited: rounding always favours the pool.
pub proof fn lemma_mint_then_redeem_never_exceeds_deposit(
    total_shares: u128,
    effective_total: u128,
    deposit: u128,
)
    requires
        total_shares > 0,
        effective_total > 0,
    ensures
        spec_near_from_shares(
            spec_mint_shares(total_shares as int, effective_total as int, deposit as int),
            effective_total + deposit,
            total_shares + spec_mint_shares(total_shares as int, effective_total as int, deposit as int),
        ) <= deposit,
{
    let t = total_shares as int;
    let e = effective_total as int;
    let x = deposit as int;
    let s = x * t / e;
    vstd::arithmetic::div_mod::lemma_fundamental_div_mod(x * t, e);
    assert(s * e <= x * t);
    assert(s >= 0) by (nonlinear_arith)
        requires
            s == x * t / e,
            x >= 0,
            t > 0,
            e > 0,
    ;
    assert(s * (e + x) <= x * (t + s)) by (nonlinear_arith)
        requires
            s * e <= x * t,
    ;
    let v = s * (e + x) / (t + s);
    vstd::arithmetic::div_mod::lemma_fundamental_div_mod(s * (e + x), t + s);
    assert(v <= x) by (nonlinear_arith)
        requires
            s * (e + x) == (t + s) * v + s * (e + x) % (t + s),
            0 <= s * (e + x) % (t + s),
            s * (e + x) <= x * (t + s),
            t + s > 0,
    ;
}

/// Redeeming at most all shares pays at most the whole backing, and redeeming all shares pays
/// exactly the whole backing.
pub proof fn lemma_exit_bounded_by_backing(shares: u128, effective_total: u128, total_shares: u128)
    requires
        shares <= total_shares,
    ensures
        spec_near_from_shares(shares as int, effective_total as int, total_shares as int)
            <= effective_total,
        spec_near_from_shares(total_shares as int, effective_total as int, total_shares as int)
            == if total_shares == 0 {
            0
        } else {
            effective_total as int
        },
{
    if total_shares > 0 {
        let t = total_shares as int;
        let e = effective_total as int;
        let s = shares as int;
        vstd::arithmetic::div_mod::lemma_fundamental_div_mod(s * e, t);
        assert(s * e <= t * e) by (nonlinear_arith)
            requires
                s <= t,
                e >= 0,
        ;
        assert((s * e) / t <= e) by (nonlinear_arith)
            requires
                s * e == t * ((s * e) / t) + (s * e) % t,
                0 <= (s * e) % t,
                s * e <= t * e,
                t > 0,
        ;
        vstd::arithmetic::div_mod::lemma_div_by_multiple(e, t);
        assert(t * e == e * t) by (nonlinear_arith);
    }
}

/// Splitting an exit in two, with the first exit's payout counted as liability before the
/// second is priced, never pays more than exiting both parts at once.
pub proof fn lemma_sequential_exits_never_exceed_joint_exit(
    s1: u128,
    s2: u128,
    effective_total: u128,
    total_shares: u128,
)
    requires
        s1 + s2 <= total_shares,
        s1 < total_shares,
    ensures
        spec_near_from_shares(s1 as int, effective_total as int, total_shares as int)
            + spec_near_from_shares(
            s2 as int,
            effective_total - spec_near_from_shares(s1 as int, effective_total as int, total_shares as int),
            total_shares - s1,
        ) <= spec_near_from_shares(s1 + s2, effective_total as int, total_shares as int),
{
    let t = total_shares as int;
    let e = effective_total as int;
    let a = s1 as int;
    let b = s2 as int;
    let n1 = a * e / t;
    let r1 = a * e % t;
    vstd::arithmetic::div_mod::lemma_fundamental_div_mod(a * e, t);
    assert(0 <= r1 < t);
    assert(n1 >= 0) by (nonlinear_arith)
        requires
            n1 == a * e / t,
            a >= 0,
            e >= 0,
            t > 0,
    ;
    let u = t - a;
    let k = b * (e - n1);
    let n2 = k / u;
    vstd::arithmetic::div_mod::lemma_fundamental_div_mod(k, u);
    let r2 = k % u;
    assert(0 <= r2 < u);
    assert(n2 * u <= k);
    // n2 * a * u <= a * k
    assert(n2 * a * u <= a * k) by (nonlinear_arith)
        requires
            n2 * u <= k,
            a >= 0,
    ;
    // a * k = b * (a * e - a * n1) and a * e = n1 * t + r1
    assert(a * k == b * (a * e) - b * a * n1) by (nonlinear_arith)
        requires
            k == b * (e - n1),
    ;
    assert(a * k == b * n1 * u + b * r1) by (nonlinear_arith)
        requires
            a * k == b * (a * e) - b * a * n1,
            a * e == t * n1 + r1,
            u == t - a,
    ;
    assert(b * r1 <= u * r1) by (nonlinear_arith)
        requires
            b <= u,
            r1 >= 0,
    ;
    assert(a * k <= r1 * u + b * n1 * u);
    assert(n2 * a <= r1 + b * n1) by (nonlinear_arith)
        requires
            n2 * a * u <= a * k,
            a * k <= r1 * u + b * n1 * u,
            u > 0,
    ;
    assert(n2 * t == n2 * u + n2 * a) by (nonlinear_arith)
        requires
            u == t - a,
    ;
    assert(k == b * e - b * n1) by (nonlinear_arith)
        requires
            k == b * (e - n1),
    ;
    assert((a + b) * e == a * e + b * e) by (nonlinear_arith);
    assert((n1 + n2) * t == n1 * t + n2 * t) by (nonlinear_arith);
    assert(n1 * t == t * n1) by (nonlinear_arith);
    assert((n1 + n2) * t <= (a + b) * e);
    let j = (a + b) * e / t;
    vstd::arithmetic::div_mod::lemma_fundamental_div_mod((a + b) * e, t);
    assert(n1 + n2 <= j) by (nonlinear_arith)
        requires
            (n1 + n2) * t <= (a + b) * e,
            (a + b) * e == t * j + (a + b) * e % t,
            (a + b) * e % t < t,
            t > 0,
    ;
}

/// A withdraw-batch credit never exceeds the user's eligible amount or the batch, and is
/// positive whenever every input is.
pub proof fn lemma_withdraw_credit_bounded(remaining: u128, eligible: u128, liability: u128)
    ensures
        spec_withdraw_batch_credit(remaining as int, eligible as int, liability as int) <= eligible,
        spec_withdraw_batch_credit(remaining as int, eligible as int, liability as int) <= remaining,
        (remaining > 0 && eligible > 0 && liability > 0) ==> spec_withdraw_batch_credit(
            remaining as int,
            eligible as int,
            liability as int,
        ) > 0,
{
    if remaining > 0 && eligible > 0 && liability > 0 {
        assert(remaining as int * eligible as int / liability as int >= 0) by (nonlinear_arith)
            requires
                remaining > 0,
                eligible > 0,
                liability > 0,
        ;
    }
}

} // verus!
