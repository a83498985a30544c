//! Ownership, guardians, pause switch and the owner's configuration setters. Every mutating call
//! takes exactly one attached yocto.

use crate::errors::ContractError;
use crate::pricing::PROTOCOL_MIN_LOCK_AMOUNT_YOCTO;
use crate::strvec::{contains_str, seq_has};
use crate::types::{AccountId, Config};
use vstd::prelude::*;

verus! {

/// `min_lock_amount` may not go below one NEAR, the staking pools' delegation minimum.
pub fn require_min_lock_amount_at_protocol_floor(min_lock_amount: u128) -> (r: Result<(), ContractError>)
    ensures
        r == if min_lock_amount >= PROTOCOL_MIN_LOCK_AMOUNT_YOCTO {
            Ok(())
        } else {
            Err(ContractError::MinLockAmountBelowProtocolFloor)
        },
{
    if min_lock_amount >= PROTOCOL_MIN_LOCK_AMOUNT_YOCTO {
        Ok(())
    } else {
        Err(ContractError::MinLockAmountBelowProtocolFloor)
    }
}

/// Initial configuration check: the minimum lock must respect the protocol floor.
pub fn check_init_config(config: &Config) -> (r: Result<(), ContractError>)
    ensures
        r == if config.min_lock_amount >= PROTOCOL_MIN_LOCK_AMOUNT_YOCTO {
            Ok(())
        } else {
            Err(ContractError::MinLockAmountBelowProtocolFloor)
        },
{
    require_min_lock_amount_at_protocol_floor(config.min_lock_amount)
}

pub fn assert_one_yocto(attached: u128) -> (r: Result<(), ContractError>)
    ensures
        r == if attached == 1 {
            Ok(())
        } else {
            Err(ContractError::OneYoctoRequired)
        },
{
    if attached == 1 {
        Ok(())
    } else {
        Err(ContractError::OneYoctoRequired)
    }
}

pub fn assert_not_paused(paused: bool) -> (r: Result<(), ContractError>)
    ensures
        r == if paused {
            Err(ContractError::Paused)
        } else {
            Ok(())
        },
{
    if paused {
        Err(ContractError::Paused)
    } else {
        Ok(())
    }
}

impl Config {
    pub open spec fn spec_is_owner(&self, caller: Seq<char>) -> bool {
        self.owner_account_id@ == caller
    }

    pub open spec fn spec_is_guardian_or_owner(&self, caller: Seq<char>) -> bool {
        seq_has(self.guardians@, caller) || self.owner_account_id@ == caller
    }

    pub fn assert_owner(&self, caller: &AccountId) -> (r: Result<(), ContractError>)
        ensures
            r == if self.spec_is_owner(caller@) {
                Ok(())
            } else {
                Err(ContractError::NotOwner)
            },
    {
        if *caller == self.owner_account_id {
            Ok(())
        } else {
            Err(ContractError::NotOwner)
        }
    }

    pub fn assert_guardian(&self, caller: &AccountId) -> (r: Result<(), ContractError>)
        ensures
            r == if self.spec_is_guardian_or_owner(caller@) {
                Ok(())
            } else {
                Err(ContractError::NotGuardianOrOwner)
            },
    {
        if contains_str(&self.guardians, caller) || *caller == self.owner_account_id {
            Ok(())
        } else {
            Err(ContractError::NotGuardianOrOwner)
        }
    }

    /// The owner names (or withdraws) a successor, who must accept.
    pub fn propose_new_owner_account_id(
        &mut self,
        attached: u128,
        caller: &AccountId,
        new_owner_account_id: Option<AccountId>,
    ) -> (r: Result<(), ContractError>)
        ensures
            r == if attached != 1 {
                Err(ContractError::OneYoctoRequired)
            } else if !old(self).spec_is_owner(caller@) {
                Err(ContractError::NotOwner)
            } else {
                Ok(())
            },
            r is Err ==> *final(self) == *old(self),
            r is Ok ==> *final(self) == (Config {
                proposed_new_owner_account_id: new_owner_account_id,
                ..*old(self)
            }),
    {
        if attached != 1 {
            return Err(ContractError::OneYoctoRequired);
        }
        if *caller != self.owner_account_id {
            return Err(ContractError::NotOwner);
        }
        self.proposed_new_owner_account_id = new_owner_account_id;
        Ok(())
    }

    /// The proposed owner takes over; the proposal is cleared.
    pub fn accept_ownership(&mut self, attached: u128, caller: &AccountId) -> (r: Result<(), ContractError>)
        ensures
            r == if attached != 1 {
                Err(ContractError::OneYoctoRequired)
            } else if !(old(self).proposed_new_owner_account_id matches Some(p) && p@ == caller@) {
                Err(ContractError::NotProposedOwner)
            } else {
                Ok(())
            },
            r is Err ==> *final(self) == *old(self),
            r is Ok ==> *final(self) == (Config {
                owner_account_id: *caller,
                proposed_new_owner_account_id: None,
                ..*old(self)
            }),
    {
        if attached != 1 {
            return Err(ContractError::OneYoctoRequired);
        }
        let ok = match &self.proposed_new_owner_account_id {
            Some(p) => *p == *caller,
            None => false,
        };
        if !ok {
            return Err(ContractError::NotProposedOwner);
        }
        self.owner_account_id = caller.clone();
        self.proposed_new_owner_account_id = None;
        Ok(())
    }

    /// Owner-only update guard shared by the setters.
    pub open spec fn spec_owner_call(&self, attached: u128, caller: Seq<char>) -> Result<(), ContractError> {
        if attached != 1 {
            Err(ContractError::OneYoctoRequired)
        } else if !self.spec_is_owner(caller) {
            Err(ContractError::NotOwner)
        } else {
            Ok(())
        }
    }

    pub fn owner_call(&self, attached: u128, caller: &AccountId) -> (r: Result<(), ContractError>)
        ensures
            r == self.spec_owner_call(attached, caller@),
    {
        if attached != 1 {
            return Err(ContractError::OneYoctoRequired);
        }
        self.assert_owner(caller)
    }

    pub fn set_guardians(&mut self, attached: u128, caller: &AccountId, guardians: Vec<AccountId>) -> (r:
        Result<(), ContractError>)
        ensures
            r == old(self).spec_owner_call(attached, caller@),
            r is Err ==> *final(self) == *old(self),
            r is Ok ==> *final(self) == (Config { guardians, ..*old(self) }),
    {
        match self.owner_call(attached, caller) {
            Ok(()) => {},
            Err(e) => {
                return Err(e);
            },
        }
        self.guardians = guardians;
        Ok(())
    }

    pub fn set_per_lock_storage_stake(&mut self, attached: u128, caller: &AccountId, amount: u128) -> (r:
        Result<(), ContractError>)
        ensures
            r == old(self).spec_owner_call(attached, caller@),
            r is Err ==> *final(self) == *old(self),
            r is Ok ==> *final(self) == (Config { per_lock_storage_stake: amount, ..*old(self) }),
    {
        match self.owner_call(attached, caller) {
            Ok(()) => {},
            Err(e) => {
                return Err(e);
            },
        }
        self.per_lock_storage_stake = amount;
        Ok(())
    }

    pub fn set_lock_bounds(
        &mut self,
        attached: u128,
        caller: &AccountId,
        min_lock_duration_ns: u64,
        max_lock_duration_ns: u64,
    ) -> (r: Result<(), ContractError>)
        ensures
            r == old(self).spec_owner_call(attached, caller@),
            r is Err ==> *final(self) == *old(self),
            r is Ok ==> *final(self) == (Config {
                min_lock_duration_ns,
                max_lock_duration_ns,
                ..*old(self)
            }),
    {
        match self.owner_call(attached, caller) {
            Ok(()) => {},
            Err(e) => {
                return Err(e);
            },
        }
        self.min_lock_duration_ns = min_lock_duration_ns;
        self.max_lock_duration_ns = max_lock_duration_ns;
        Ok(())
    }

    /// The new minimum lock must respect the protocol floor, as at initialisation.
    pub fn set_min_lock_amount(&mut self, attached: u128, caller: &AccountId, min_lock_amount: u128) -> (r:
        Result<(), ContractError>)
        ensures
            r == if old(self).spec_owner_call(attached, caller@) is Err {
                old(self).spec_owner_call(attached, caller@)
            } else if min_lock_amount < PROTOCOL_MIN_LOCK_AMOUNT_YOCTO {
                Err(ContractError::MinLockAmountBelowProtocolFloor)
            } else {
                Ok(())
            },
            r is Err ==> *final(self) == *old(self),
            r is Ok ==> *final(self) == (Config { min_lock_amount, ..*old(self) }),
    {
        match self.owner_call(attached, caller) {
            Ok(()) => {},
            Err(e) => {
                return Err(e);
            },
        }
        match require_min_lock_amount_at_protocol_floor(min_lock_amount) {
            Ok(()) => {},
            Err(e) => {
                return Err(e);
            },
        }
        self.min_lock_amount = min_lock_amount;
        Ok(())
    }

    pub fn set_min_storage_deposit(&mut self, attached: u128, caller: &AccountId, amount: u128) -> (r:
        Result<(), ContractError>)
        ensures
            r == old(self).spec_owner_call(attached, caller@),
            r is Err ==> *final(self) == *old(self),
            r is Ok ==> *final(self) == (Config { min_storage_deposit: amount, ..*old(self) }),
    {
        match self.owner_call(attached, caller) {
            Ok(()) => {},
            Err(e) => {
                return Err(e);
            },
        }
        self.min_storage_deposit = amount;
        Ok(())
    }

    pub fn set_epoch_unstake_settle_epochs(&mut self, attached: u128, caller: &AccountId, epochs: u64) -> (r:
        Result<(), ContractError>)
        ensures
            r == old(self).spec_owner_call(attached, caller@),
            r is Err ==> *final(self) == *old(self),
            r is Ok ==> *final(self) == (Config { epoch_unstake_settle_epochs: epochs, ..*old(self) }),
    {
        match self.owner_call(attached, caller) {
            Ok(()) => {},
            Err(e) => {
                return Err(e);
            },
        }
        self.epoch_unstake_settle_epochs = epochs;
        Ok(())
    }
}

/// A guardian or the owner pauses the contract.
pub fn pause(paused: &mut bool, attached: u128, config: &Config, caller: &AccountId) -> (r: Result<
    (),
    ContractError,
>)
    ensures
        r == if attached != 1 {
            Err(ContractError::OneYoctoRequired)
        } else if !config.spec_is_guardian_or_owner(caller@) {
            Err(ContractError::NotGuardianOrOwner)
        } else {
            Ok(())
        },
        r is Err ==> *final(paused) == *old(paused),
        r is Ok ==> *final(paused),
{
    match assert_one_yocto(attached) {
        Ok(()) => {},
        Err(e) => {
            return Err(e);
        },
    }
    match config.assert_guardian(caller) {
        Ok(()) => {},
        Err(e) => {
            return Err(e);
        },
    }
    *paused = true;
    Ok(())
}

/// Only the owner unpauses.
pub fn unpause(paused: &mut bool, attached: u128, config: &Config, caller: &AccountId) -> (r: Result<
    (),
    ContractError,
>)
    ensures
        r == config.spec_owner_call(attached, caller@),
        r is Err ==> *final(paused) == *old(paused),
        r is Ok ==> !*final(paused),
{
    match config.owner_call(attached, caller) {
        Ok(()) => {},
        Err(e) => {
            return Err(e);
        },
    }
    *paused = false;
    Ok(())
}

/// Ownership hand-over: after the owner proposes `new_owner` and `new_owner` accepts, `new_owner`
/// owns the configuration, no proposal is left, and nothing else changed; anyone else's
/// acceptance is refused.
pub proof fn lemma_ownership_handover(c: Config, owner: AccountId, new_owner: AccountId, other: AccountId)
    requires
        c.owner_account_id@ == owner@,
        other@ != new_owner@,
    ensures
        ({
            let proposed = Config { proposed_new_owner_account_id: Some(new_owner), ..c };
            &&& c.spec_owner_call(1, owner@) is Ok
            &&& proposed.proposed_new_owner_account_id matches Some(p) && p@ == new_owner@
            &&& !(proposed.proposed_new_owner_account_id matches Some(p) && p@ == other@)
            &&& (Config {
                owner_account_id: new_owner,
                proposed_new_owner_account_id: None,
                ..proposed
            }).spec_is_owner(new_owner@)
        }),
{
}

} // verus!
