//! Catalog, lifecycle and pool-accounting records. Amounts are yoctoNEAR (`u128`), times are
//! nanoseconds (`u64`), and account ids are the account's text.

use vstd::prelude::*;

verus! {

pub type ProductId = String;

pub type PriceId = String;

pub type SubscriptionId = String;

pub type LockId = String;

pub type PurchaseId = String;

/// Staking pool contract account (allowlist key, catalog scope, lock pool).
pub type ValidatorId = String;

pub type AccountId = String;

/// The record behind an optional reference.
pub open spec fn opt_ref<T>(o: Option<&T>) -> Option<T> {
    match o {
        Some(x) => Some(*x),
        None => None,
    }
}

#[derive(Clone, Copy, Debug, PartialEq, Eq, Structural)]
pub enum PriceType {
    OneOff,
    Recurring,
    Farm,
}

#[derive(Clone, Copy, Debug, PartialEq, Eq, Structural)]
pub enum BillingPeriod {
    Monthly,
}

#[derive(Clone, Copy, Debug, PartialEq, Eq, Structural)]
pub enum CatalogStatus {
    Active,
    Archived,
}

#[derive(Clone, Copy, Debug, PartialEq, Eq, Structural)]
pub enum SubscriptionStatus {
    Active,
    Cancelled,
    Expired,
}

#[derive(Clone, Copy, Debug, PartialEq, Eq, Structural)]
pub enum ValidatorStatus {
    Active,
    Paused,
    Removed,
}

/// Serialises asynchronous pool operations per validator.
#[derive(Clone, Copy, Debug, PartialEq, Eq, Structural)]
pub enum TransactionStatus {
    Idle,
    Busy,
}

#[derive(Clone, Copy, Debug, PartialEq, Eq, Structural)]
pub enum LockStatus {
    Active,
    UnlockRequested,
    Withdrawn,
}

#[derive(Clone, Copy, Debug, PartialEq, Eq, Structural)]
pub enum FarmStatus {
    Active,
    Closed,
}

/// Snapshot of a staking pool `get_account` view for this contract's account.
#[derive(Clone, Copy, Debug, PartialEq, Eq, Structural)]
pub struct PoolAccountView {
    pub unstaked_balance: u128,
    pub staked_balance: u128,
    /// Pool-side flag: unstaked balance can be withdrawn now.
    pub can_withdraw: bool,
}

impl PoolAccountView {
    pub fn unstaked(&self) -> (r: u128)
        ensures
            r == self.unstaked_balance,
    {
        self.unstaked_balance
    }

    /// Staked plus unstaked balance, saturating.
    pub fn total_balance(&self) -> (r: u128)
        ensures
            r == crate::pricing::sat_add(self.unstaked_balance as int, self.staked_balance as int),
    {
        self.unstaked_balance.saturating_add(self.staked_balance)
    }
}

/// Prepaid storage of a registered account.
#[derive(Clone, Copy, Debug, PartialEq, Eq, Structural)]
pub struct Account {
    pub storage_deposit: u128,
}

#[derive(Clone, Copy, Debug, PartialEq, Eq, Structural)]
pub struct StorageBalance {
    pub total: u128,
    pub available: u128,
}

#[derive(Clone, Copy, Debug, PartialEq, Eq, Structural)]
pub struct StorageBalanceBounds {
    pub min: u128,
    pub max: Option<u128>,
}

/// Protocol configuration.
#[derive(Debug)]
pub struct Config {
    pub owner_account_id: AccountId,
    pub proposed_new_owner_account_id: Option<AccountId>,
    pub guardians: Vec<AccountId>,
    pub min_lock_duration_ns: u64,
    pub max_lock_duration_ns: u64,
    pub epoch_unstake_settle_epochs: u64,
    pub min_storage_deposit: u128,
    /// Per lock ever created by the account.
    pub per_lock_storage_stake: u128,
    /// Per farm position ever created by the account.
    pub per_farm_position_storage_stake: u128,
    /// Per direct purchase ever created by the account.
    pub per_purchase_storage_stake: u128,
    /// Minimum NEAR attached for locks and subscription payments.
    pub min_lock_amount: u128,
}

/// One slice of a user's post-unlock liability, claimable from `available_epoch_height` on.
#[derive(Clone, Copy, Debug, PartialEq, Eq, Structural)]
pub struct PendingUnstakeTranche {
    pub amount: u128,
    pub available_epoch_height: u64,
}

/// Allowlisted staking pool with its share-pool accounting.
#[derive(Debug)]
pub struct Validator {
    pub validator_id: ValidatorId,
    pub status: ValidatorStatus,
    /// Issued share units on this pool.
    pub total_shares: u128,
    /// Cached staked NEAR of this contract on the pool.
    pub total_staked_balance: u128,
    pub last_balance_refresh_ns: u64,
    /// NEAR waiting to be staked on the pool.
    pub pending_to_stake: u128,
    /// NEAR queued to leave the pool.
    pub pending_to_unstake: u128,
    pub last_unstake_epoch: u64,
    pub last_settlement_epoch: u64,
    /// Unstaked on the pool, not yet withdrawn into the contract.
    pub pending_to_withdraw: u128,
    /// In the contract and claimable by users.
    pub pending_to_claim: u128,
    pub accounts_with_pending_unstake: Vec<AccountId>,
    pub tx_status: TransactionStatus,
}

#[derive(Debug)]
pub enum OrderRef {
    ProductPurchase { product_id: ProductId, price_id: PriceId },
    Subscription {
        subscription_id: SubscriptionId,
        price_id: PriceId,
        period_start_ns: u64,
        period_end_ns: u64,
    },
}

#[derive(Debug)]
pub struct Product {
    pub product_id: ProductId,
    pub validator_id: ValidatorId,
    pub name: String,
    pub description: String,
    pub status: CatalogStatus,
    pub created_ns: u64,
    pub price_ids: Vec<PriceId>,
    /// Default price used when a lock names only the product.
    pub default_price_id: Option<PriceId>,
    pub usage_count: u64,
}

#[derive(Clone, Copy, Debug, PartialEq, Eq, Structural)]
pub struct PriceMetadata {
    /// Inclusive upper bound for variable subscription stakes and active farm stake.
    pub max_amount: Option<u128>,
    /// Farm reward rate (24-decimal reward units per second per staked NEAR).
    pub farm_reward_rate: Option<u128>,
}

#[derive(Debug)]
pub struct Price {
    pub price_id: PriceId,
    pub product_id: ProductId,
    pub name: String,
    pub description: String,
    /// Catalog amount in yoctoNEAR.
    pub amount: u128,
    pub price_type: PriceType,
    pub billing_period: Option<BillingPeriod>,
    /// Fixed-point lock weight over `LOCK_FACTOR_DENOM`.
    pub lock_factor_near_months: u128,
    pub metadata: Option<PriceMetadata>,
    pub status: CatalogStatus,
    pub usage_count: u64,
}

#[derive(Debug)]
pub struct PendingSubscriptionUpdate {
    /// Plan to switch to at `apply_ns`; absent when only the stake decreases.
    pub target_price_id: Option<PriceId>,
    /// Stake to drop to at `apply_ns`; absent when only the plan changes.
    pub target_amount: Option<u128>,
    pub apply_ns: u64,
}

#[derive(Debug)]
pub struct Subscription {
    pub subscription_id: SubscriptionId,
    pub account_id: AccountId,
    pub product_id: ProductId,
    pub price_id: PriceId,
    pub start_ns: u64,
    pub end_ns: u64,
    pub anchor_day: u8,
    pub last_lock_id: LockId,
    pub status: SubscriptionStatus,
    /// No renewal after the current billing period.
    pub cancel_at_period_end: bool,
    pub pending_update: Option<PendingSubscriptionUpdate>,
}

#[derive(Debug)]
pub struct SubscriptionPlanChangeOutcome {
    pub kind: String,
    pub subscription_id: SubscriptionId,
    pub target_price_id: PriceId,
    pub target_amount: u128,
    pub lock_id: Option<LockId>,
    pub immediate_plan_change: bool,
    pub immediate_stake_increase: Option<u128>,
    pub pending_plan_change: bool,
    pub pending_stake_decrease: Option<u128>,
    pub pending_apply_ns: Option<u64>,
}

#[derive(Debug)]
pub struct Lock {
    pub lock_id: LockId,
    pub account_id: AccountId,
    pub validator_id: ValidatorId,
    pub amount_near: u128,
    pub shares: u128,
    pub start_ns: u64,
    pub end_ns: u64,
    pub order: OrderRef,
    pub status: LockStatus,
}

#[derive(Debug)]
pub struct Purchase {
    pub purchase_id: PurchaseId,
    pub account_id: AccountId,
    pub product_id: ProductId,
    pub price_id: PriceId,
    pub quantity: u64,
    pub amount_paid: u128,
    pub created_ns: u64,
}

#[derive(Debug)]
pub struct FarmPool {
    pub price_id: PriceId,
    pub product_id: ProductId,
    /// 24-decimal reward units emitted per second per staked NEAR.
    pub reward_rate: u128,
    /// Validator shares attributed to active positions.
    pub total_farm_shares: u128,
    /// Cumulative reward units per share, over `FARM_ACC_REWARD_PER_SHARE_DENOM`.
    pub acc_reward_per_share: u128,
    pub last_reward_settle_ns: u64,
}

#[derive(Debug)]
pub struct FarmPosition {
    pub account_id: AccountId,
    pub product_id: ProductId,
    pub price_id: PriceId,
    pub validator_id: ValidatorId,
    pub shares: u128,
    pub reward_debt: u128,
    pub accrued_reward_units: u128,
    pub status: FarmStatus,
    pub created_ns: u64,
    pub updated_ns: u64,
}

#[derive(Debug)]
pub struct FarmAccount {
    pub account_id: AccountId,
    /// Rewards of fully closed positions.
    pub accumulated_reward_units: u128,
    pub active_position_count: u32,
    pub last_update_ns: u64,
}

#[derive(Debug)]
pub struct FarmPositionView {
    pub account_id: AccountId,
    pub product_id: ProductId,
    pub price_id: PriceId,
    pub validator_id: ValidatorId,
    pub shares: u128,
    pub staked_near_amount: u128,
    pub reward_debt: u128,
    pub accrued_reward_units: u128,
    pub pending_reward_units: u128,
    pub total_earned_reward_units: u128,
    pub status: FarmStatus,
    pub created_ns: u64,
    pub updated_ns: u64,
}

#[derive(Debug)]
pub struct FarmAccountView {
    pub account_id: AccountId,
    pub accumulated_reward_units: u128,
    pub pending_reward_units: u128,
    pub total_earned_reward_units: u128,
    pub active_positions: Vec<FarmPositionView>,
}

/// Per-validator lock reward index.
#[derive(Debug)]
pub struct ValidatorRewardConfig {
    pub validator_id: ValidatorId,
    pub reward_rate_yocto_per_near_ns: u128,
    pub accumulated_reward_per_near: u128,
    pub last_update_ns: u64,
}

/// Reward bookkeeping of one lock.
#[derive(Debug)]
pub struct LockRewardState {
    pub lock_id: LockId,
    pub accumulated_reward_per_near_paid: u128,
    pub unclaimed_rewards: u128,
    pub claimed_rewards: u128,
    pub last_update_ns: u64,
}

/// The user-facing step that follows the per-epoch validator settlement.
#[derive(Debug)]
pub enum UserAction {
    CommitLock {
        validator_id: ValidatorId,
        buyer: AccountId,
        locked: u128,
        duration_ns: u128,
        order: OrderRef,
    },
    CommitRecurringSubscriptionLock {
        validator_id: ValidatorId,
        buyer: AccountId,
        locked: u128,
        price_id: PriceId,
    },
    UnlockQueueUnstake {
        validator_id: ValidatorId,
        lock_id: LockId,
        account_id: AccountId,
        shares_remove: u128,
    },
    WithdrawUserTransfer { validator_id: ValidatorId, account_id: AccountId },
    SettleOnly { validator_id: ValidatorId },
    SubscriptionUpdate {
        validator_id: ValidatorId,
        buyer: AccountId,
        deposit: u128,
        target_price_id: PriceId,
        target_amount: u128,
        subscription_id: SubscriptionId,
    },
    CommitFarmStake {
        validator_id: ValidatorId,
        account_id: AccountId,
        deposit: u128,
        product_id: ProductId,
        price_id: PriceId,
    },
    FarmUnstakeQueue {
        validator_id: ValidatorId,
        account_id: AccountId,
        product_id: ProductId,
        amount: Option<u128>,
    },
}

impl UserAction {
    /// The validator whose pipeline carries this action.
    pub open spec fn spec_validator_id(&self) -> ValidatorId {
        match self {
            UserAction::CommitLock { validator_id, .. } => *validator_id,
            UserAction::CommitRecurringSubscriptionLock { validator_id, .. } => *validator_id,
            UserAction::UnlockQueueUnstake { validator_id, .. } => *validator_id,
            UserAction::WithdrawUserTransfer { validator_id, .. } => *validator_id,
            UserAction::SettleOnly { validator_id } => *validator_id,
            UserAction::SubscriptionUpdate { validator_id, .. } => *validator_id,
            UserAction::CommitFarmStake { validator_id, .. } => *validator_id,
            UserAction::FarmUnstakeQueue { validator_id, .. } => *validator_id,
        }
    }

    pub fn validator_id(&self) -> (r: &ValidatorId)
        ensures
            *r == self.spec_validator_id(),
    {
        match self {
            UserAction::CommitLock { validator_id, .. } => validator_id,
            UserAction::CommitRecurringSubscriptionLock { validator_id, .. } => validator_id,
            UserAction::UnlockQueueUnstake { validator_id, .. } => validator_id,
            UserAction::WithdrawUserTransfer { validator_id, .. } => validator_id,
            UserAction::SettleOnly { validator_id } => validator_id,
            UserAction::SubscriptionUpdate { validator_id, .. } => validator_id,
            UserAction::CommitFarmStake { validator_id, .. } => validator_id,
            UserAction::FarmUnstakeQueue { validator_id, .. } => validator_id,
        }
    }

    /// Who gets the attached NEAR back, and how much, when a payable flow aborts.
    pub open spec fn spec_payable_refund(&self) -> Option<(AccountId, u128)> {
        match self {
            UserAction::CommitLock { buyer, locked, .. } => Some((*buyer, *locked)),
            UserAction::CommitRecurringSubscriptionLock { buyer, locked, .. } => Some(
                (*buyer, *locked),
            ),
            UserAction::SubscriptionUpdate { buyer, deposit, .. } => Some((*buyer, *deposit)),
            UserAction::CommitFarmStake { account_id, deposit, .. } => Some((*account_id, *deposit)),
            _ => None,
        }
    }

    pub fn payable_refund(&self) -> (r: Option<(AccountId, u128)>)
        ensures
            r == self.spec_payable_refund(),
    {
        match self {
            UserAction::CommitLock { buyer, locked, .. } => Some((buyer.clone(), *locked)),
            UserAction::CommitRecurringSubscriptionLock { buyer, locked, .. } => Some(
                (buyer.clone(), *locked),
            ),
            UserAction::SubscriptionUpdate { buyer, deposit, .. } => Some(
                (buyer.clone(), *deposit),
            ),
            UserAction::CommitFarmStake { account_id, deposit, .. } => Some(
                (account_id.clone(), *deposit),
            ),
            _ => None,
        }
    }
}

} // verus!
