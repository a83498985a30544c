//! User exit payouts: every epoch-eligible unstake tranche is dropped and its total is paid
//! from the validator's claim bucket.

use crate::errors::ContractError;
use crate::pricing::sat_add;
use crate::strvec::{push_unique, remove_str, seq_has, seq_without};
use crate::types::{AccountId, PendingUnstakeTranche, TransactionStatus, Validator};
use vstd::prelude::*;

verus! {

/// Total of all tranches, added left to right with saturation.
pub open spec fn spec_tranche_sum(s: Seq<PendingUnstakeTranche>) -> int
    decreases s.len(),
{
    if s.len() == 0 {
        0
    } else {
        sat_add(spec_tranche_sum(s.drop_last()), s.last().amount as int)
    }
}

/// Total of the tranches claimable at `epoch` (`epoch >= available_epoch_height`).
pub open spec fn spec_claimable_sum(s: Seq<PendingUnstakeTranche>, epoch: int) -> int
    decreases s.len(),
{
    if s.len() == 0 {
        0
    } else if epoch >= s.last().available_epoch_height {
        sat_add(spec_claimable_sum(s.drop_last(), epoch), s.last().amount as int)
    } else {
        spec_claimable_sum(s.drop_last(), epoch)
    }
}

/// The tranches not yet claimable at `epoch`, in order.
pub open spec fn spec_retained(s: Seq<PendingUnstakeTranche>, epoch: int) -> Seq<PendingUnstakeTranche>
    decreases s.len(),
{
    if s.len() == 0 {
        Seq::empty()
    } else if epoch >= s.last().available_epoch_height {
        spec_retained(s.drop_last(), epoch)
    } else {
        spec_retained(s.drop_last(), epoch).push(s.last())
    }
}

proof fn lemma_take_step(s: Seq<PendingUnstakeTranche>, i: int)
    requires
        0 <= i < s.len(),
    ensures
        s.take(i + 1).drop_last() == s.take(i),
        s.take(i + 1).last() == s[i],
{
    assert(s.take(i + 1).drop_last() =~= s.take(i));
}

/// Total yocto across all of an account's tranches on one pool, including ones not yet claimable.
pub fn sum_user_unstake_tranches_yocto(tranches: &Vec<PendingUnstakeTranche>) -> (r: u128)
    ensures
        r == spec_tranche_sum(tranches@),
{
    let mut sum: u128 = 0;
    let mut i: usize = 0;
    while i < tranches.len()
        invariant
            i <= tranches.len(),
            sum == spec_tranche_sum(tranches@.take(i as int)),
        decreases tranches.len() - i,
    {
        proof {
            lemma_take_step(tranches@, i as int);
        }
        sum = sum.saturating_add(tranches[i].amount);
        i = i + 1;
    }
    proof {
        assert(tranches@.take(tranches@.len() as int) =~= tranches@);
    }
    sum
}

/// Total of the tranches claimable at `at_epoch`.
pub fn claimable_tranches_yocto(tranches: &Vec<PendingUnstakeTranche>, at_epoch: u64) -> (r: u128)
    ensures
        r == spec_claimable_sum(tranches@, at_epoch as int),
{
    let mut sum: u128 = 0;
    let mut i: usize = 0;
    while i < tranches.len()
        invariant
            i <= tranches.len(),
            sum == spec_claimable_sum(tranches@.take(i as int), at_epoch as int),
        decreases tranches.len() - i,
    {
        proof {
            lemma_take_step(tranches@, i as int);
        }
        if at_epoch >= tranches[i].available_epoch_height {
            sum = sum.saturating_add(tranches[i].amount);
        }
        i = i + 1;
    }
    proof {
        assert(tranches@.take(tranches@.len() as int) =~= tranches@);
    }
    sum
}

/// Drops every tranche claimable at `at_epoch`; returns their total and whether none remain.
pub fn remove_claimable_tranches(tranches: &mut Vec<PendingUnstakeTranche>, at_epoch: u64) -> (r: (
    u128,
    bool,
))
    ensures
        r.0 == spec_claimable_sum(old(tranches)@, at_epoch as int),
        final(tranches)@ == spec_retained(old(tranches)@, at_epoch as int),
        r.1 == (final(tranches)@.len() == 0),
{
    let claimable = claimable_tranches_yocto(tranches, at_epoch);
    let mut kept: Vec<PendingUnstakeTranche> = Vec::new();
    let mut i: usize = 0;
    while i < tranches.len()
        invariant
            i <= tranches.len(),
            kept@ == spec_retained(tranches@.take(i as int), at_epoch as int),
        decreases tranches.len() - i,
    {
        proof {
            lemma_take_step(tranches@, i as int);
        }
        if at_epoch < tranches[i].available_epoch_height {
            kept.push(tranches[i]);
        }
        i = i + 1;
    }
    proof {
        assert(tranches@.take(tranches@.len() as int) =~= tranches@);
    }
    *tranches = kept;
    (claimable, tranches.len() == 0)
}

/// Entry checks of a user withdraw on one pool: something is owed, the pool is idle, and the
/// account is listed among those with pending exits.
pub fn withdraw_entry(
    validator: &mut Validator,
    tranches: &Vec<PendingUnstakeTranche>,
    account_id: &AccountId,
) -> (r: Result<(), ContractError>)
    ensures
        spec_tranche_sum(tranches@) == 0 ==> r == Err::<(), ContractError>(
            ContractError::NothingToClaimForValidator,
        ),
        spec_tranche_sum(tranches@) > 0 && old(validator).tx_status != TransactionStatus::Idle
            ==> r == Err::<(), ContractError>(ContractError::ValidatorBusy),
        r is Err ==> *final(validator) == *old(validator),
        r is Ok <==> (spec_tranche_sum(tranches@) > 0 && old(validator).tx_status
            == TransactionStatus::Idle),
        r is Ok ==> *final(validator) == (Validator {
            accounts_with_pending_unstake: final(validator).accounts_with_pending_unstake,
            ..*old(validator)
        }),
        r is Ok && seq_has(old(validator).accounts_with_pending_unstake@, account_id@)
            ==> final(validator).accounts_with_pending_unstake@
            == old(validator).accounts_with_pending_unstake@,
        r is Ok && !seq_has(old(validator).accounts_with_pending_unstake@, account_id@)
            ==> final(validator).accounts_with_pending_unstake@
            == old(validator).accounts_with_pending_unstake@.push(*account_id),
{
    if sum_user_unstake_tranches_yocto(tranches) == 0 {
        return Err(ContractError::NothingToClaimForValidator);
    }
    validator.check_idle()?;
    push_unique(&mut validator.accounts_with_pending_unstake, account_id);
    Ok(())
}

/// Pays every tranche claimable at `at_epoch` from the claim bucket. Returns the credit.
pub fn claim_from_withdraw_bucket(
    validator: &mut Validator,
    tranches: &mut Vec<PendingUnstakeTranche>,
    account_id: &AccountId,
    at_epoch: u64,
) -> (r: Result<u128, ContractError>)
    ensures
        ({
            let v = *old(validator);
            let credit = spec_claimable_sum(old(tranches)@, at_epoch as int);
            &&& r == Err::<u128, ContractError>(ContractError::EmptyClaimBucket) <==> v.pending_to_claim
                == 0
            &&& r == Err::<u128, ContractError>(ContractError::ZeroUserLiability) <==> (
            v.pending_to_claim > 0 && v.spec_pending_user_liability() == 0)
            &&& r == Err::<u128, ContractError>(ContractError::ClaimNotYetAvailable) <==> (
            v.pending_to_claim > 0 && v.spec_pending_user_liability() > 0 && credit == 0)
            &&& r == Err::<u128, ContractError>(ContractError::ClaimBucketTooSmall) <==> (
            v.pending_to_claim > 0 && v.spec_pending_user_liability() > 0 && credit > 0
                && credit > v.pending_to_claim)
            &&& r is Ok <==> (v.pending_to_claim > 0 && v.spec_pending_user_liability() > 0 && 0
                < credit <= v.pending_to_claim)
            &&& r is Err ==> *final(validator) == v && final(tranches)@ == old(tranches)@
            &&& r matches Ok(c) ==> {
                &&& c == credit
                &&& final(tranches)@ == spec_retained(old(tranches)@, at_epoch as int)
                &&& final(validator).pending_to_claim == v.pending_to_claim - c
                &&& final(tranches)@.len() == 0 ==> final(validator).accounts_with_pending_unstake@
                    == seq_without(v.accounts_with_pending_unstake@, account_id@)
                &&& final(tranches)@.len() > 0 ==> final(validator).accounts_with_pending_unstake
                    == v.accounts_with_pending_unstake
                &&& *final(validator) == (Validator {
                    pending_to_claim: final(validator).pending_to_claim,
                    accounts_with_pending_unstake: final(validator).accounts_with_pending_unstake,
                    ..v
                })
            }
        }),
{
    let bucket = validator.pending_to_claim;
    if bucket == 0 {
        return Err(ContractError::EmptyClaimBucket);
    }
    if validator.pending_user_liability_yocto() == 0 {
        return Err(ContractError::ZeroUserLiability);
    }
    let credit = claimable_tranches_yocto(tranches, at_epoch);
    if credit == 0 {
        return Err(ContractError::ClaimNotYetAvailable);
    }
    if bucket < credit {
        return Err(ContractError::ClaimBucketTooSmall);
    }
    let (_removed, user_done) = remove_claimable_tranches(tranches, at_epoch);
    validator.pending_to_claim = bucket - credit;
    if user_done {
        remove_str(&mut validator.accounts_with_pending_unstake, account_id);
    }
    Ok(credit)
}

/// Claims partition an account's tranches: what is paid plus what is kept equals the total
/// owed (when the total does not reach the `u128` limit), and the kept tranches are exactly
/// those not yet available.
pub proof fn lemma_claim_partitions_tranches(s: Seq<PendingUnstakeTranche>, epoch: int)
    requires
        spec_tranche_sum(s) < u128::MAX,
    ensures
        spec_claimable_sum(s, epoch) + spec_tranche_sum(spec_retained(s, epoch)) == spec_tranche_sum(s),
        forall|i: int|
            0 <= i < spec_retained(s, epoch).len() ==> epoch < (#[trigger] spec_retained(
                s,
                epoch,
            )[i]).available_epoch_height,
    decreases s.len(),
{
    if s.len() > 0 {
        lemma_tranche_sum_monotone(s);
        lemma_claim_partitions_tranches(s.drop_last(), epoch);
        let r0 = spec_retained(s.drop_last(), epoch);
        let a = s.last().amount as int;
        assert(spec_tranche_sum(s.drop_last()) + a == spec_tranche_sum(s));
        assert(spec_claimable_sum(s.drop_last(), epoch) + spec_tranche_sum(r0) == spec_tranche_sum(
            s.drop_last(),
        ));
        assert(spec_claimable_sum(s.drop_last(), epoch) >= 0) by {
            lemma_sums_nonnegative(s.drop_last(), epoch);
        }
        lemma_sums_nonnegative(r0, epoch);
        if epoch < s.last().available_epoch_height {
            assert(spec_retained(s, epoch) == r0.push(s.last()));
            assert(r0.push(s.last()).drop_last() =~= r0);
            assert(spec_tranche_sum(r0.push(s.last())) == sat_add(spec_tranche_sum(r0), a));
        } else {
            assert(spec_claimable_sum(s, epoch) == sat_add(
                spec_claimable_sum(s.drop_last(), epoch),
                a,
            ));
        }
    }
}

proof fn lemma_sums_nonnegative(s: Seq<PendingUnstakeTranche>, epoch: int)
    ensures
        spec_tranche_sum(s) >= 0,
        spec_claimable_sum(s, epoch) >= 0,
    decreases s.len(),
{
    if s.len() > 0 {
        lemma_sums_nonnegative(s.drop_last(), epoch);
    }
}

proof fn lemma_tranche_sum_monotone(s: Seq<PendingUnstakeTranche>)
    requires
        s.len() > 0,
        spec_tranche_sum(s) < u128::MAX,
    ensures
        spec_tranche_sum(s.drop_last()) + s.last().amount == spec_tranche_sum(s),
{
}

} // verus!
