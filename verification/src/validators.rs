//! Validator share pool: backing figures, share mint and exit, the per-epoch pool settlement
//! steps, and user claims of unlocked NEAR.

use crate::errors::ContractError;
use crate::pricing::{mul_div_floor_checked, near_from_shares, sat_add, sat_sub, spec_mint_shares, spec_near_from_shares};
use crate::strvec::{push_unique, remove_str, seq_has, seq_without};
use crate::types::{AccountId, PendingUnstakeTranche, TransactionStatus, Validator, ValidatorId, ValidatorStatus};
use vstd::prelude::*;

verus! {

impl Validator {
    /// All user exit liability: queued to unstake, unstaked on the pool, and claimable here.
    pub open spec fn spec_pending_user_liability(&self) -> int {
        sat_add(
            sat_add(self.pending_to_unstake as int, self.pending_to_withdraw as int),
            self.pending_to_claim as int,
        )
    }

    /// Liability still outside this contract.
    pub open spec fn spec_pending_not_in_contract(&self) -> int {
        sat_add(self.pending_to_unstake as int, self.pending_to_withdraw as int)
    }

    pub open spec fn spec_gross_stake(&self) -> int {
        sat_add(self.total_staked_balance as int, self.pending_to_stake as int)
    }

    /// NEAR backing the circulating shares: gross stake less the liability outside the contract.
    pub open spec fn spec_net_stake(&self) -> int {
        sat_sub(self.spec_gross_stake(), self.spec_pending_not_in_contract())
    }

    pub fn pending_user_liability_yocto(&self) -> (r: u128)
        ensures
            r == self.spec_pending_user_liability(),
    {
        self.pending_to_unstake.saturating_add(self.pending_to_withdraw).saturating_add(
            self.pending_to_claim,
        )
    }

    pub fn pending_not_in_contract_yocto(&self) -> (r: u128)
        ensures
            r == self.spec_pending_not_in_contract(),
    {
        self.pending_to_unstake.saturating_add(self.pending_to_withdraw)
    }

    pub fn gross_stake_yocto(&self) -> (r: u128)
        ensures
            r == self.spec_gross_stake(),
    {
        self.total_staked_balance.saturating_add(self.pending_to_stake)
    }

    pub fn net_stake_yocto(&self) -> (r: u128)
        ensures
            r == self.spec_net_stake(),
    {
        self.gross_stake_yocto().saturating_sub(self.pending_not_in_contract_yocto())
    }

    /// A freshly allowlisted pool: active, idle, with empty accounting.
    pub fn new(validator_id: ValidatorId, now_ns: u64) -> (v: Validator)
        ensures
            v.validator_id == validator_id,
            v.status == ValidatorStatus::Active,
            v.total_shares == 0,
            v.total_staked_balance == 0,
            v.last_balance_refresh_ns == now_ns,
            v.pending_to_stake == 0,
            v.pending_to_unstake == 0,
            v.last_unstake_epoch == 0,
            v.last_settlement_epoch == 0,
            v.pending_to_withdraw == 0,
            v.pending_to_claim == 0,
            v.accounts_with_pending_unstake@ == Seq::<AccountId>::empty(),
            v.tx_status == TransactionStatus::Idle,
    {
        Validator {
            validator_id,
            status: ValidatorStatus::Active,
            total_shares: 0,
            total_staked_balance: 0,
            last_balance_refresh_ns: now_ns,
            pending_to_stake: 0,
            pending_to_unstake: 0,
            last_unstake_epoch: 0,
            last_settlement_epoch: 0,
            pending_to_withdraw: 0,
            pending_to_claim: 0,
            accounts_with_pending_unstake: Vec::new(),
            tx_status: TransactionStatus::Idle,
        }
    }

    /// Blocks new locks on this pool.
    pub fn pause(&mut self)
        ensures
            *final(self) == (Validator { status: ValidatorStatus::Paused, ..*old(self) }),
    {
        self.status = ValidatorStatus::Paused;
    }

    /// Marks the pool removed once it holds no shares and every bucket is empty.
    pub fn remove(&mut self) -> (r: Result<(), ContractError>)
        ensures
            r is Ok <==> (old(self).total_shares == 0 && old(self).pending_to_stake == 0
                && old(self).pending_to_unstake == 0 && old(self).pending_to_withdraw == 0
                && old(self).pending_to_claim == 0),
            r is Ok ==> *final(self) == (Validator { status: ValidatorStatus::Removed, ..*old(self) }),
            r is Err ==> r == Err::<(), ContractError>(ContractError::ValidatorNotEmpty) && *final(self)
                == *old(self),
    {
        if self.total_shares == 0 && self.pending_to_stake == 0 && self.pending_to_unstake == 0
            && self.pending_to_withdraw == 0 && self.pending_to_claim == 0 {
            self.status = ValidatorStatus::Removed;
            Ok(())
        } else {
            Err(ContractError::ValidatorNotEmpty)
        }
    }

    pub fn check_active_for_lock(&self) -> (r: Result<(), ContractError>)
        ensures
            r == if self.status == ValidatorStatus::Active {
                Ok(())
            } else {
                Err(ContractError::ValidatorNotActiveForLock)
            },
    {
        if self.status == ValidatorStatus::Active {
            Ok(())
        } else {
            Err(ContractError::ValidatorNotActiveForLock)
        }
    }

    /// User entry points must not start while a pool call is in flight.
    pub fn check_idle(&self) -> (r: Result<(), ContractError>)
        ensures
            r == if self.tx_status == TransactionStatus::Idle {
                Ok(())
            } else {
                Err(ContractError::ValidatorBusy)
            },
    {
        if self.tx_status == TransactionStatus::Idle {
            Ok(())
        } else {
            Err(ContractError::ValidatorBusy)
        }
    }

    /// Pipeline callbacks run only while the pool is marked busy.
    pub fn check_busy(&self) -> (r: Result<(), ContractError>)
        ensures
            r == if self.tx_status == TransactionStatus::Busy {
                Ok(())
            } else {
                Err(ContractError::ValidatorNotBusy)
            },
    {
        if self.tx_status == TransactionStatus::Busy {
            Ok(())
        } else {
            Err(ContractError::ValidatorNotBusy)
        }
    }

    /// A pool unstake is on record and `settle_epochs` have passed since it.
    pub fn unstake_waiting_finished(&self, current_epoch: u64, settle_epochs: u64) -> (r: bool)
        ensures
            r == (self.last_unstake_epoch > 0 && current_epoch >= sat_add_u64(
                self.last_unstake_epoch as int,
                settle_epochs as int,
            )),
    {
        self.last_unstake_epoch > 0 && current_epoch >= self.last_unstake_epoch.saturating_add(
            settle_epochs,
        )
    }

    /// First epoch at which a tranche queued now may be claimed:
    /// `max(current, last_unstake + settle) + settle`, saturating.
    pub fn pending_unstake_tranche_available_epoch_height(
        &self,
        current_epoch: u64,
        settle_epochs: u64,
    ) -> (r: u64)
        ensures
            r == spec_tranche_available_epoch(
                current_epoch as int,
                self.last_unstake_epoch as int,
                settle_epochs as int,
            ),
    {
        let after_last = self.last_unstake_epoch.saturating_add(settle_epochs);
        let start = if current_epoch >= after_last {
            current_epoch
        } else {
            after_last
        };
        start.saturating_add(settle_epochs)
    }
}

pub open spec fn sat_add_u64(a: int, b: int) -> int {
    if a + b > u64::MAX {
        u64::MAX as int
    } else {
        a + b
    }
}

pub open spec fn spec_tranche_available_epoch(current: int, last_unstake: int, settle: int) -> int {
    let after_last = sat_add_u64(last_unstake, settle);
    let start = if current >= after_last {
        current
    } else {
        after_last
    };
    sat_add_u64(start, settle)
}

/// A tranche queued at `current_epoch` becomes claimable `settle_epochs` after the later of now
/// and the end of the pool's running unstake (`last_unstake_epoch + settle_epochs`), capped at
/// the last epoch: it is never announced before the pool's NEAR can be withdrawn, so never before
/// `last_unstake_epoch + 2 * settle_epochs`.
pub proof fn lemma_tranche_waits_for_pool_unstake(
    current_epoch: u64,
    last_unstake_epoch: u64,
    settle_epochs: u64,
)
    ensures
        ({
            let r = spec_tranche_available_epoch(
                current_epoch as int,
                last_unstake_epoch as int,
                settle_epochs as int,
            );
            let now_wait = current_epoch + settle_epochs;
            let pool_wait = last_unstake_epoch + 2 * settle_epochs;
            &&& r <= u64::MAX
            &&& pool_wait <= u64::MAX ==> r >= pool_wait
            &&& now_wait <= u64::MAX ==> r >= now_wait
            &&& r == now_wait || r == pool_wait || r == u64::MAX
            &&& r == u64::MAX ==> now_wait >= u64::MAX || pool_wait >= u64::MAX
        }),
{
}

/// Why minting for `deposit` on `v` is refused, if it is.
pub open spec fn spec_stake_error(v: Validator, deposit: int) -> Option<ContractError> {
    let net = v.spec_net_stake();
    if v.total_shares > 0 && net == 0 {
        Some(ContractError::NoEffectiveStakeForMint)
    } else if spec_mint_shares(v.total_shares as int, net, deposit) > u128::MAX {
        Some(ContractError::ShareMintOverflow)
    } else if v.pending_to_stake + deposit > u128::MAX {
        Some(ContractError::PendingToStakeOverflow)
    } else {
        None
    }
}

/// Shares minted for `deposit` on `v`.
pub open spec fn spec_stake_minted(v: Validator, deposit: int) -> int {
    spec_mint_shares(v.total_shares as int, v.spec_net_stake(), deposit)
}

/// `v` after minting for `deposit` and queueing it to stake.
pub open spec fn spec_staked_validator(v: Validator, deposit: int) -> Validator {
    Validator {
        total_shares: sat_add(v.total_shares as int, spec_stake_minted(v, deposit)) as u128,
        pending_to_stake: (v.pending_to_stake + deposit) as u128,
        ..v
    }
}

/// The shares a stake of `deposit` would mint, or why it would be refused, without making it.
pub fn stake_preview(validator: &Validator, deposit: u128) -> (r: Result<u128, ContractError>)
    ensures
        r is Err <==> spec_stake_error(*validator, deposit as int) is Some,
        r matches Err(e) ==> spec_stake_error(*validator, deposit as int) == Some(e),
        r matches Ok(m) ==> m == spec_stake_minted(*validator, deposit as int),
{
    let net = validator.net_stake_yocto();
    let total = validator.total_shares;
    if total > 0 && net == 0 {
        return Err(ContractError::NoEffectiveStakeForMint);
    }
    let new_shares = if total == 0 || net == 0 {
        deposit
    } else {
        match mul_div_floor_checked(deposit, total, net) {
            Some(s) => s,
            None => {
                return Err(ContractError::ShareMintOverflow);
            },
        }
    };
    if validator.pending_to_stake.checked_add(deposit).is_none() {
        return Err(ContractError::PendingToStakeOverflow);
    }
    Ok(new_shares)
}

/// Mints shares for `deposit` on `validator`, queues the deposit to stake, and returns the new
/// shares with the depositor's updated share balance.
pub fn internal_stake(validator: &mut Validator, user_shares: u128, deposit: u128) -> (r: Result<
    (u128, u128),
    ContractError,
>)
    ensures
        ({
            let v = *old(validator);
            let net = v.spec_net_stake();
            let minted = spec_mint_shares(v.total_shares as int, net, deposit as int);
            &&& r == Err::<(u128, u128), ContractError>(ContractError::NoEffectiveStakeForMint) <==> (
            v.total_shares > 0 && net == 0)
            &&& r == Err::<(u128, u128), ContractError>(ContractError::ShareMintOverflow) <==> (!(
            v.total_shares > 0 && net == 0) && minted > u128::MAX)
            &&& r == Err::<(u128, u128), ContractError>(ContractError::PendingToStakeOverflow) <==> (!(
            v.total_shares > 0 && net == 0) && minted <= u128::MAX && v.pending_to_stake + deposit
                > u128::MAX)
            &&& r is Err ==> *final(validator) == v
            &&& r matches Ok((new_shares, new_user_shares)) ==> {
                &&& new_shares == minted
                &&& new_user_shares == sat_add(user_shares as int, minted)
                &&& *final(validator) == (Validator {
                    total_shares: sat_add(v.total_shares as int, minted) as u128,
                    pending_to_stake: (v.pending_to_stake + deposit) as u128,
                    ..v
                })
            }
        }),
        r is Err <==> spec_stake_error(*old(validator), deposit as int) is Some,
        r matches Err(e) ==> spec_stake_error(*old(validator), deposit as int) == Some(e),
        r matches Ok((m, _)) ==> m == spec_stake_minted(*old(validator), deposit as int)
            && *final(validator) == spec_staked_validator(*old(validator), deposit as int),
{
    let net = validator.net_stake_yocto();
    let total = validator.total_shares;
    if total > 0 && net == 0 {
        return Err(ContractError::NoEffectiveStakeForMint);
    }
    let new_shares = if total == 0 || net == 0 {
        deposit
    } else {
        match mul_div_floor_checked(deposit, total, net) {
            Some(s) => s,
            None => {
                return Err(ContractError::ShareMintOverflow);
            },
        }
    };
    let pending = match validator.pending_to_stake.checked_add(deposit) {
        Some(p) => p,
        None => {
            return Err(ContractError::PendingToStakeOverflow);
        },
    };
    validator.total_shares = total.saturating_add(new_shares);
    validator.pending_to_stake = pending;
    Ok((new_shares, user_shares.saturating_add(new_shares)))
}

/// Staking a deposit on a pool that already has shares and backing, then exiting with exactly
/// the shares it minted, never returns more NEAR than was deposited (while no balance saturates).
pub proof fn lemma_stake_then_exit_never_exceeds_deposit(v: Validator, deposit: u128)
    requires
        v.total_shares > 0,
        v.spec_net_stake() > 0,
        spec_stake_error(v, deposit as int) is None,
        v.total_shares + spec_stake_minted(v, deposit as int) <= u128::MAX,
        v.total_staked_balance + v.pending_to_stake + deposit <= u128::MAX,
    ensures
        spec_unstake_near(spec_staked_validator(v, deposit as int), spec_stake_minted(v, deposit as int))
            <= deposit,
{
    let v2 = spec_staked_validator(v, deposit as int);
    assert(v2.spec_net_stake() == v.spec_net_stake() + deposit);
    crate::pricing::lemma_mint_then_redeem_never_exceeds_deposit(
        v.total_shares,
        v.spec_net_stake() as u128,
        deposit,
    );
}

/// Why burning `shares_remove` of an account holding `user_shares` on `v` is refused, if it is.
pub open spec fn spec_unstake_error(v: Validator, user_shares: int, shares_remove: int) -> Option<
    ContractError,
> {
    let net = v.spec_net_stake();
    if shares_remove == 0 {
        Some(ContractError::ZeroSharesToExit)
    } else if v.total_shares == 0 || v.total_shares < shares_remove {
        Some(ContractError::ExitExceedsPoolShares)
    } else if net == 0 {
        Some(ContractError::NoEffectiveStakeForExit)
    } else if v.pending_to_unstake + spec_unstake_near(v, shares_remove) > u128::MAX {
        Some(ContractError::PendingToUnstakeOverflow)
    } else if user_shares < shares_remove {
        Some(ContractError::InsufficientUserShares)
    } else {
        None
    }
}

/// NEAR value of burning `shares_remove` on `v`, priced against its net backing.
pub open spec fn spec_unstake_near(v: Validator, shares_remove: int) -> int {
    spec_near_from_shares(shares_remove, v.spec_net_stake(), v.total_shares as int)
}

/// Why an exit would be refused, without making it.
pub fn unstake_error(validator: &Validator, user_shares: u128, shares_remove: u128) -> (r: Option<
    ContractError,
>)
    ensures
        r == spec_unstake_error(*validator, user_shares as int, shares_remove as int),
{
    if shares_remove == 0 {
        return Some(ContractError::ZeroSharesToExit);
    }
    let total = validator.total_shares;
    if total == 0 || total < shares_remove {
        return Some(ContractError::ExitExceedsPoolShares);
    }
    let net = validator.net_stake_yocto();
    if net == 0 {
        return Some(ContractError::NoEffectiveStakeForExit);
    }
    proof {
        crate::pricing::lemma_exit_bounded_by_backing(shares_remove, net, total);
    }
    let near_amt = near_from_shares(shares_remove, net, total);
    if validator.pending_to_unstake.checked_add(near_amt).is_none() {
        return Some(ContractError::PendingToUnstakeOverflow);
    }
    if user_shares < shares_remove {
        return Some(ContractError::InsufficientUserShares);
    }
    None
}

/// The effect of an accepted exit of `shares_remove` shares by `account_id` on the pool `v`
/// (now `v2`) and the account's tranches `t` (now `t2`): the shares are burned, their NEAR value
/// is queued to unstake and recorded as a tranche, and the account is listed once among those
/// with pending exits; nothing else changes.
pub open spec fn spec_unstaked(
    v: Validator,
    v2: Validator,
    t: Seq<PendingUnstakeTranche>,
    t2: Seq<PendingUnstakeTranche>,
    account_id: AccountId,
    shares_remove: int,
    current_epoch: int,
    settle_epochs: int,
) -> bool {
    let near = spec_unstake_near(v, shares_remove);
    &&& t2 == t.push(
        PendingUnstakeTranche {
            amount: near as u128,
            available_epoch_height: spec_tranche_available_epoch(
                current_epoch,
                v.last_unstake_epoch as int,
                settle_epochs,
            ) as u64,
        },
    )
    &&& v2.total_shares == v.total_shares - shares_remove
    &&& v2.pending_to_unstake == v.pending_to_unstake + near
    &&& v2.accounts_with_pending_unstake@ == if seq_has(v.accounts_with_pending_unstake@, account_id@) {
        v.accounts_with_pending_unstake@
    } else {
        v.accounts_with_pending_unstake@.push(account_id)
    }
    &&& v2 == (Validator {
        total_shares: v2.total_shares,
        pending_to_unstake: v2.pending_to_unstake,
        accounts_with_pending_unstake: v2.accounts_with_pending_unstake,
        ..v
    })
}

/// Burns `shares_remove` of an account's shares, prices them against the net backing, queues
/// that NEAR to unstake, and records a claimable tranche for the account.
/// Returns the NEAR value of the exit and the account's remaining shares.
pub fn internal_unstake(
    validator: &mut Validator,
    user_shares: u128,
    tranches: &mut Vec<PendingUnstakeTranche>,
    account_id: &AccountId,
    shares_remove: u128,
    current_epoch: u64,
    settle_epochs: u64,
) -> (r: Result<(u128, u128), ContractError>)
    ensures
        ({
            let v = *old(validator);
            let net = v.spec_net_stake();
            let near = spec_near_from_shares(shares_remove as int, net, v.total_shares as int);
            &&& r == Err::<(u128, u128), ContractError>(ContractError::ZeroSharesToExit) <==> shares_remove
                == 0
            &&& r == Err::<(u128, u128), ContractError>(ContractError::ExitExceedsPoolShares) <==> (
            shares_remove > 0 && (v.total_shares == 0 || v.total_shares < shares_remove))
            &&& r == Err::<(u128, u128), ContractError>(ContractError::NoEffectiveStakeForExit) <==> (
            shares_remove > 0 && v.total_shares > 0 && v.total_shares >= shares_remove && net == 0)
            &&& r == Err::<(u128, u128), ContractError>(ContractError::PendingToUnstakeOverflow) <==> (
            shares_remove > 0 && v.total_shares >= shares_remove && net > 0 && v.pending_to_unstake
                + near > u128::MAX)
            &&& r == Err::<(u128, u128), ContractError>(ContractError::InsufficientUserShares) <==> (
            shares_remove > 0 && v.total_shares >= shares_remove && net > 0 && v.pending_to_unstake
                + near <= u128::MAX && user_shares < shares_remove)
            &&& r is Err ==> *final(validator) == v && final(tranches)@ == old(tranches)@
            &&& r matches Ok((near_amt, remaining)) ==> {
                &&& near_amt == near
                &&& remaining == user_shares - shares_remove
                &&& final(tranches)@ == old(tranches)@.push(
                    PendingUnstakeTranche {
                        amount: near_amt,
                        available_epoch_height: spec_tranche_available_epoch(
                            current_epoch as int,
                            v.last_unstake_epoch as int,
                            settle_epochs as int,
                        ) as u64,
                    },
                )
                &&& final(validator).total_shares == v.total_shares - shares_remove
                &&& final(validator).pending_to_unstake == v.pending_to_unstake + near_amt
                &&& seq_has(v.accounts_with_pending_unstake@, account_id@)
                    ==> final(validator).accounts_with_pending_unstake@
                    == v.accounts_with_pending_unstake@
                &&& !seq_has(v.accounts_with_pending_unstake@, account_id@)
                    ==> final(validator).accounts_with_pending_unstake@
                    == v.accounts_with_pending_unstake@.push(*account_id)
                &&& *final(validator) == (Validator {
                    total_shares: final(validator).total_shares,
                    pending_to_unstake: final(validator).pending_to_unstake,
                    accounts_with_pending_unstake: final(validator).accounts_with_pending_unstake,
                    ..v
                })
            }
        }),
        r is Err <==> spec_unstake_error(*old(validator), user_shares as int, shares_remove as int)
            is Some,
        r matches Err(e) ==> spec_unstake_error(
            *old(validator),
            user_shares as int,
            shares_remove as int,
        ) == Some(e),
        r matches Ok((near_amt, _)) ==> near_amt == spec_unstake_near(
            *old(validator),
            shares_remove as int,
        ),
        r is Ok ==> spec_unstaked(
            *old(validator),
            *final(validator),
            old(tranches)@,
            final(tranches)@,
            *account_id,
            shares_remove as int,
            current_epoch as int,
            settle_epochs as int,
        ),
{
    if shares_remove == 0 {
        return Err(ContractError::ZeroSharesToExit);
    }
    let total = validator.total_shares;
    if total == 0 || total < shares_remove {
        return Err(ContractError::ExitExceedsPoolShares);
    }
    let net = validator.net_stake_yocto();
    if net == 0 {
        return Err(ContractError::NoEffectiveStakeForExit);
    }
    proof {
        crate::pricing::lemma_exit_bounded_by_backing(shares_remove, net, total);
    }
    let near_amt = near_from_shares(shares_remove, net, total);
    let pending = match validator.pending_to_unstake.checked_add(near_amt) {
        Some(p) => p,
        None => {
            return Err(ContractError::PendingToUnstakeOverflow);
        },
    };
    if user_shares < shares_remove {
        return Err(ContractError::InsufficientUserShares);
    }
    let available = validator.pending_unstake_tranche_available_epoch_height(
        current_epoch,
        settle_epochs,
    );
    validator.total_shares = total - shares_remove;
    validator.pending_to_unstake = pending;
    tranches.push(PendingUnstakeTranche { amount: near_amt, available_epoch_height: available });
    push_unique(&mut validator.accounts_with_pending_unstake, account_id);
    Ok((near_amt, user_shares - shares_remove))
}

/// The owner allowlists a new pool: fresh, active and idle.
pub fn add_validator(
    attached: u128,
    config: &crate::types::Config,
    caller: &AccountId,
    exists: bool,
    validator_id: ValidatorId,
    now_ns: u64,
) -> (r: Result<Validator, ContractError>)
    ensures
        config.spec_owner_call(attached, caller@) is Err ==> r == Err::<Validator, ContractError>(
            config.spec_owner_call(attached, caller@)->Err_0,
        ),
        config.spec_owner_call(attached, caller@) is Ok && exists ==> r == Err::<Validator, ContractError>(
            ContractError::ValidatorAlreadyExists,
        ),
        r matches Ok(v) ==> config.spec_owner_call(attached, caller@) is Ok && !exists
            && v.validator_id == validator_id && v.status == ValidatorStatus::Active
            && v.total_shares == 0 && v.total_staked_balance == 0 && v.last_balance_refresh_ns
            == now_ns && v.pending_to_stake == 0 && v.pending_to_unstake == 0
            && v.last_unstake_epoch == 0 && v.last_settlement_epoch == 0 && v.pending_to_withdraw
            == 0 && v.pending_to_claim == 0 && v.accounts_with_pending_unstake@.len() == 0
            && v.tx_status == TransactionStatus::Idle,
        config.spec_owner_call(attached, caller@) is Ok && !exists ==> r is Ok,
{
    match config.owner_call(attached, caller) {
        Ok(()) => {},
        Err(e) => {
            return Err(e);
        },
    }
    if exists {
        return Err(ContractError::ValidatorAlreadyExists);
    }
    Ok(Validator::new(validator_id, now_ns))
}

/// Owner-only pause or removal of an allowlisted pool; removal needs the pool emptied.
pub fn pause_or_remove_validator(
    attached: u128,
    config: &crate::types::Config,
    caller: &AccountId,
    validator: Option<Validator>,
    remove: bool,
) -> (r: Result<Validator, ContractError>)
    ensures
        config.spec_owner_call(attached, caller@) is Err ==> r == Err::<Validator, ContractError>(
            config.spec_owner_call(attached, caller@)->Err_0,
        ),
        config.spec_owner_call(attached, caller@) is Ok && validator is None ==> r == Err::<
            Validator,
            ContractError,
        >(ContractError::ValidatorNotFound),
        config.spec_owner_call(attached, caller@) is Ok && !remove && validator is Some ==> r
            == Ok::<Validator, ContractError>(
            Validator { status: ValidatorStatus::Paused, ..validator.unwrap() },
        ),
        config.spec_owner_call(attached, caller@) is Ok && remove && validator is Some ==> ({
            let v = validator.unwrap();
            let empty = v.total_shares == 0 && v.pending_to_stake == 0 && v.pending_to_unstake == 0
                && v.pending_to_withdraw == 0 && v.pending_to_claim == 0;
            &&& empty ==> r == Ok::<Validator, ContractError>(
                Validator { status: ValidatorStatus::Removed, ..v },
            )
            &&& !empty ==> r == Err::<Validator, ContractError>(ContractError::ValidatorNotEmpty)
        }),
{
    match config.owner_call(attached, caller) {
        Ok(()) => {},
        Err(e) => {
            return Err(e);
        },
    }
    let mut v = match validator {
        Some(v) => v,
        None => {
            return Err(ContractError::ValidatorNotFound);
        },
    };
    if remove {
        match v.remove() {
            Ok(()) => Ok(v),
            Err(e) => Err(e),
        }
    } else {
        v.pause();
        Ok(v)
    }
}

} // verus!
