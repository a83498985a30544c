//! Stored configuration versions: the first layout lacks the per-farm-position storage stake,
//! which reads as zero once migrated.

use crate::types::{AccountId, Config};
use vstd::prelude::*;
use vstd::std_specs::convert::FromSpecImpl;

verus! {

/// The first stored configuration layout.
#[derive(Debug)]
pub struct ConfigV0 {
    pub owner_account_id: AccountId,
    pub proposed_new_owner_account_id: Option<AccountId>,
    pub guardians: Vec<AccountId>,
    pub min_lock_duration_ns: u64,
    pub max_lock_duration_ns: u64,
    pub epoch_unstake_settle_epochs: u64,
    pub min_storage_deposit: u128,
    pub per_lock_storage_stake: u128,
    pub per_purchase_storage_stake: u128,
    pub min_lock_amount: u128,
}

/// A stored configuration of any layout.
#[derive(Debug)]
pub enum VConfig {
    V0(ConfigV0),
    V1(Config),
}

pub open spec fn spec_config_from_v0(v: ConfigV0) -> Config {
    Config {
        owner_account_id: v.owner_account_id,
        proposed_new_owner_account_id: v.proposed_new_owner_account_id,
        guardians: v.guardians,
        min_lock_duration_ns: v.min_lock_duration_ns,
        max_lock_duration_ns: v.max_lock_duration_ns,
        epoch_unstake_settle_epochs: v.epoch_unstake_settle_epochs,
        min_storage_deposit: v.min_storage_deposit,
        per_lock_storage_stake: v.per_lock_storage_stake,
        per_farm_position_storage_stake: 0,
        per_purchase_storage_stake: v.per_purchase_storage_stake,
        min_lock_amount: v.min_lock_amount,
    }
}

pub open spec fn spec_config_from_versioned(v: VConfig) -> Config {
    match v {
        VConfig::V0(inner) => spec_config_from_v0(inner),
        VConfig::V1(inner) => inner,
    }
}

impl From<ConfigV0> for Config {
    fn from(value: ConfigV0) -> (r: Config) {
        Config {
            owner_account_id: value.owner_account_id,
            proposed_new_owner_account_id: value.proposed_new_owner_account_id,
            guardians: value.guardians,
            min_lock_duration_ns: value.min_lock_duration_ns,
            max_lock_duration_ns: value.max_lock_duration_ns,
            epoch_unstake_settle_epochs: value.epoch_unstake_settle_epochs,
            min_storage_deposit: value.min_storage_deposit,
            per_lock_storage_stake: value.per_lock_storage_stake,
            per_farm_position_storage_stake: 0,
            per_purchase_storage_stake: value.per_purchase_storage_stake,
            min_lock_amount: value.min_lock_amount,
        }
    }
}

impl FromSpecImpl<ConfigV0> for Config {
    open spec fn obeys_from_spec() -> bool {
        true
    }

    open spec fn from_spec(v: ConfigV0) -> Config {
        spec_config_from_v0(v)
    }
}

impl From<Config> for VConfig {
    fn from(value: Config) -> (r: VConfig) {
        VConfig::V1(value)
    }
}

impl FromSpecImpl<Config> for VConfig {
    open spec fn obeys_from_spec() -> bool {
        true
    }

    open spec fn from_spec(v: Config) -> VConfig {
        VConfig::V1(v)
    }
}

impl From<VConfig> for Config {
    fn from(value: VConfig) -> (r: Config) {
        match value {
            VConfig::V0(inner) => Config::from(inner),
            VConfig::V1(inner) => inner,
        }
    }
}

impl FromSpecImpl<VConfig> for Config {
    open spec fn obeys_from_spec() -> bool {
        true
    }

    open spec fn from_spec(v: VConfig) -> Config {
        spec_config_from_versioned(v)
    }
}

impl VConfig {
    /// The current configuration; a first-layout configuration must be migrated first.
    pub fn as_config(&self) -> (r: &Config)
        requires
            *self is V1,
        ensures
            *r == spec_config_from_versioned(*self),
    {
        match self {
            VConfig::V1(c) => c,
            VConfig::V0(_) => vstd::pervasive::unreached(),
        }
    }
}

/// Storing a configuration and reading it back gives the same configuration, and a migrated
/// first-layout configuration keeps every field it had, with no per-farm-position stake.
pub proof fn lemma_config_roundtrip(c: Config, v0: ConfigV0)
    ensures
        spec_config_from_versioned(VConfig::V1(c)) == c,
        spec_config_from_versioned(VConfig::V0(v0)).per_farm_position_storage_stake == 0,
        spec_config_from_versioned(VConfig::V0(v0)).owner_account_id == v0.owner_account_id,
        spec_config_from_versioned(VConfig::V0(v0)).min_lock_amount == v0.min_lock_amount,
{
}

} // verus!
