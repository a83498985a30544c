//! Reasons a contract operation is refused.

use vstd::prelude::*;

verus! {

#[derive(Clone, Copy, Debug, PartialEq, Eq, Structural)]
pub enum ContractError {
    // Configuration and governance.
    MinLockAmountBelowProtocolFloor,
    NotOwner,
    NotGuardianOrOwner,
    NotProposedOwner,
    Paused,
    // Validators.
    ValidatorAlreadyExists,
    ValidatorNotFound,
    ValidatorNotEmpty,
    ValidatorNotActiveForLock,
    ValidatorBusy,
    ValidatorNotBusy,
    ValidatorMismatch,
    NotValidatorOwner,
    PoolOwnerUnavailable,
    // Share pool accounting.
    NoEffectiveStakeForMint,
    ShareMintOverflow,
    PendingToStakeOverflow,
    ZeroSharesToExit,
    ExitExceedsPoolShares,
    NoEffectiveStakeForExit,
    PendingToUnstakeOverflow,
    InsufficientUserShares,
    // Pool settlement callbacks.
    DepositAndStakeWithoutNetStake,
    UnstakeWithoutNetUnstake,
    StakedBalanceOverflow,
    RecordedBalanceBelowWithdrawn,
    PendingToClaimOverflow,
    WithdrawRequiresUnstakedBalance,
    PoolNotWithdrawable,
    // User claims.
    NothingToClaimForValidator,
    EmptyClaimBucket,
    ZeroUserLiability,
    ClaimNotYetAvailable,
    ClaimBucketTooSmall,
    // Storage.
    AccountNotRegistered,
    StorageAttachRequired,
    StorageDepositOverflow,
    StorageBelowMinimum,
    StorageWithdrawZero,
    StorageWithdrawTooLarge,
    ForceUnregisterUnsupported,
    StorageForLock,
    StorageForPurchase,
    StorageForFarmPosition,
    StorageTopUp,
    // Catalog.
    ProductNotFound,
    PriceNotFound,
    ProductNotActive,
    ProductArchivedOrInactive,
    PriceNotActive,
    ProductNotArchived,
    PriceNotArchived,
    ProductInUse,
    PriceInUse,
    ProductHasPrices,
    PriceNotOnProduct,
    PriceListedElsewhere,
    DefaultPriceNotActive,
    NoDefaultPrice,
    DefaultPriceForeign,
    BothPriceAndProduct,
    NeitherPriceNorProduct,
    PendingUpdateReferencesPrice,
    PendingUpdateReferencesProduct,
    NotOneOffPrice,
    OneOffWithBillingPeriod,
    NotRecurringPrice,
    NotMonthly,
    FarmPriceNeedsStake,
    // Locks.
    AttachedBelowMinLock,
    DurationRequired,
    DurationForbidden,
    DurationOutOfRange,
    LockTooSmall,
    CatalogValidatorMismatch,
    LockNotFound,
    NotLockOwner,
    LockNotActive,
    LockNotEnded,
    LockSharesChanged,
    SubscriptionLockActive,
    // Subscriptions.
    SubscriptionNotFound,
    NotSubscriptionOwner,
    SubscriptionNotActive,
    NotCancelling,
    PeriodEnded,
    TargetBelowMinimum,
    TargetAboveMaximum,
    SubscriptionExistsForTarget,
    TargetReservedByPendingUpdate,
    TargetValidatorMismatch,
    NoLockForSubscription,
    PeriodAlreadyHasLock,
    PriceNotCurrentTier,
    LockedMustMatchStake,
    AttachedMustEqualIncrease,
    OneYoctoRequired,
    IncreaseMintsNoShares,
    LockAmountOverflow,
    SubscriptionIdNotFound,
    NotSubscriptionLockOwner,
    UpdateCatalogValidatorMismatch,
    UpdateLockValidatorMismatch,
    UpdatePeriodEnded,
    SubscriptionPeriodEnded,
    NonPositiveDuration,
    UnsettledDecrease,
    LockIdNotFound,
    UnlockOwnerChanged,
    LockNoLongerActive,
    // Farms.
    NotFarmPrice,
    FarmPriceForeign,
    FarmPriceInactive,
    MultipleActiveFarmPrices,
    NoActiveFarmPrice,
    ExistingFarmPriceDiffers,
    FarmBelowMinimum,
    FarmAboveMaximum,
    FarmPositionNotFound,
    FarmPositionNotActive,
    FarmPositionEmpty,
    FarmUnstakeZero,
    FarmNoEffectiveStake,
    FarmSharesExceeded,
    FarmPoolUnderflow,
    FarmPoolNotFound,
    FarmCatalogValidatorMismatch,
    FarmValidatorMismatch,
    ActiveFarmPriceExists,
    // Payments and rewards.
    ZeroQuantity,
    PaymentOverflow,
    PaymentMismatch,
    RevenueOverflow,
    ProductRevenueOverflow,
    NoRevenue,
    NoRewards,
    NotLockOwnerForRewardUpdate,
    NotLockOwnerForRewardClaim,
    // Oracle.
    OracleFromFuture,
    OracleStale,
    OracleNotCaller,
    OracleNoPrice,
    OracleMsgInvalid,
    OracleBelowMinLock,
    OracleDurationOutOfBounds,
    OracleUnknownPrice,
    OracleUnknownProduct,
    OraclePriceNotActive,
    OracleProductNotActive,
    OracleMultiplierNotDecimal,
}

impl ContractError {
    /// The text a refused call fails with.
    /// The text of the refusal.
    pub open spec fn spec_message(&self) -> Seq<char> {
        match self {
            ContractError::MinLockAmountBelowProtocolFloor => "min_lock_amount must be at least 1 NEAR (stake pool delegation minimum)"@,
            ContractError::NotOwner => "Only the contract owner can call this method"@,
            ContractError::NotGuardianOrOwner => "Only a guardian or the contract owner can call this method"@,
            ContractError::NotProposedOwner => "Only the proposed new owner can call this method"@,
            ContractError::Paused => "The contract is paused; try again after it has been unpaused"@,
            ContractError::ValidatorAlreadyExists => "Validator already exists"@,
            ContractError::ValidatorNotFound => "Validator not found on the allowlist"@,
            ContractError::ValidatorNotEmpty => "Cannot remove this validator: all stake, pending stake/unstake, and withdraw bucket must be cleared first"@,
            ContractError::ValidatorNotActiveForLock => "This validator is paused or removed; new locks are not allowed on it"@,
            ContractError::ValidatorBusy => "Validator pool is busy; wait for the in-flight pool call to finish"@,
            ContractError::ValidatorNotBusy => "Validator pool must be busy after per-epoch settlement"@,
            ContractError::ValidatorMismatch => "Lock validator mismatch"@,
            ContractError::PoolOwnerUnavailable => "Could not read the validator pool owner; try again later"@,
            ContractError::NotValidatorOwner => "Only the validator owner can call this method"@,
            ContractError::NoEffectiveStakeForMint => "No effective stake for share minting; wait for balance refresh or settlement"@,
            ContractError::ShareMintOverflow => "Share mint amount does not fit in 128 bits"@,
            ContractError::PendingToStakeOverflow => "pending_to_stake overflow when recording this lock"@,
            ContractError::ZeroSharesToExit => "Cannot exit shares: amount must be greater than zero"@,
            ContractError::ExitExceedsPoolShares => "Cannot exit shares: validator pool has no shares or amount exceeds pool total"@,
            ContractError::NoEffectiveStakeForExit => "Cannot price this exit: no effective stake left for remaining shares; wait for stake or withdraw steps to finish, then retry"@,
            ContractError::PendingToUnstakeOverflow => "pending_to_unstake overflow"@,
            ContractError::InsufficientUserShares => "Cannot exit shares: account does not hold enough shares on this validator"@,
            ContractError::DepositAndStakeWithoutNetStake => "deposit_and_stake callback requires pending_to_stake > pending_to_unstake"@,
            ContractError::UnstakeWithoutNetUnstake => "unstake callback requires pending_to_unstake > pending_to_stake"@,
            ContractError::StakedBalanceOverflow => "total_staked_balance overflow after stake"@,
            ContractError::RecordedBalanceBelowWithdrawn => "Recorded pool balance is less than the withdrawn amount; retry after the next successful balance refresh from the pool"@,
            ContractError::PendingToClaimOverflow => "pending_to_claim overflow after pool transfer"@,
            ContractError::WithdrawRequiresUnstakedBalance => "Withdraw requires positive unstaked balance from the pool"@,
            ContractError::PoolNotWithdrawable => "Pool reports unstaked balance is not yet withdrawable"@,
            ContractError::NothingToClaimForValidator => "You have no unlocked NEAR waiting to claim for this validator"@,
            ContractError::EmptyClaimBucket => "No NEAR is in the withdraw bucket yet; wait until unstaked funds are moved from the pool (e.g. call withdraw again after epochs settle), or retry later"@,
            ContractError::ZeroUserLiability => "Nothing to claim: total user liability for this pool is zero (no tranches left to match the withdraw bucket)"@,
            ContractError::ClaimNotYetAvailable => "Nothing to claim yet: wait until `epoch_height >=` your tranche's available epoch height"@,
            ContractError::ClaimBucketTooSmall => "Withdraw bucket cannot cover all claimable tranches yet; call withdraw again after more pool funds arrive"@,
            ContractError::AccountNotRegistered => "Account not registered; call storage_deposit first"@,
            ContractError::StorageAttachRequired => "Attach NEAR for storage"@,
            ContractError::StorageDepositOverflow => "Storage deposit overflow; reduce the attached amount"@,
            ContractError::StorageBelowMinimum => "Attached deposit is less than the minimum storage balance"@,
            ContractError::StorageWithdrawZero => "Withdraw amount must be greater than zero"@,
            ContractError::StorageWithdrawTooLarge => "Withdraw exceeds available storage"@,
            ContractError::ForceUnregisterUnsupported => "Force unregister is not supported"@,
            ContractError::StorageForLock => "Top up storage for another lock"@,
            ContractError::StorageForPurchase => "Top up storage for another purchase"@,
            ContractError::StorageForFarmPosition => "Top up storage for another farm position"@,
            ContractError::StorageTopUp => "Top up storage (minimum prepaid)"@,
            ContractError::ProductNotFound => "Product not found in the catalog"@,
            ContractError::PriceNotFound => "Price not found in the catalog"@,
            ContractError::ProductArchivedOrInactive => "This product is archived or inactive"@,
            ContractError::ProductNotActive => "This product is not active; pick an active product"@,
            ContractError::PriceNotActive => "This price is not active; pick an active price"@,
            ContractError::ProductNotArchived => "Product is not archived"@,
            ContractError::PriceNotArchived => "Price is not archived"@,
            ContractError::ProductInUse => "Cannot delete this product while it is in use"@,
            ContractError::PriceInUse => "Cannot delete this price while it is in use"@,
            ContractError::ProductHasPrices => "Remove or delete all prices for this product first"@,
            ContractError::PriceNotOnProduct => "Price not listed on product"@,
            ContractError::PriceListedElsewhere => "Price does not belong to this product"@,
            ContractError::DefaultPriceNotActive => "Only an active (unarchived) price can be the default"@,
            ContractError::NoDefaultPrice => "No default price for this product"@,
            ContractError::DefaultPriceForeign => "Default price does not belong to this product"@,
            ContractError::BothPriceAndProduct => "Provide only one of price_id or product_id"@,
            ContractError::NeitherPriceNorProduct => "Provide price_id or product_id"@,
            ContractError::PendingUpdateReferencesPrice => "Cannot archive or delete this price while it is referenced by a pending subscription update"@,
            ContractError::PendingUpdateReferencesProduct => "Cannot archive or delete this product while it is referenced by a pending subscription update"@,
            ContractError::NotOneOffPrice => "This price is not a one-off product price"@,
            ContractError::OneOffWithBillingPeriod => "One-off price must not set billing_period"@,
            ContractError::NotRecurringPrice => "This price is not a recurring subscription price"@,
            ContractError::NotMonthly => "Only monthly billing is supported"@,
            ContractError::FarmPriceNeedsStake => "Use stake for farm prices"@,
            ContractError::AttachedBelowMinLock => "Attached NEAR is below the contract minimum lock amount (min_lock_amount)"@,
            ContractError::DurationRequired => "duration_ns is required for one-off prices"@,
            ContractError::DurationForbidden => "duration_ns must be omitted for recurring subscription prices"@,
            ContractError::DurationOutOfRange => "Lock duration is outside the allowed range for this contract"@,
            ContractError::LockTooSmall => "Locked NEAR or lock duration is too low for this catalog price"@,
            ContractError::CatalogValidatorMismatch => "Catalog validator for this price does not match the pool used for this lock"@,
            ContractError::LockNotFound => "Lock not found; check the lock id"@,
            ContractError::NotLockOwner => "Only the lock owner can unlock"@,
            ContractError::LockNotActive => "Lock is not active"@,
            ContractError::LockNotEnded => "Lock period has not ended yet"@,
            ContractError::LockSharesChanged => "Lock shares changed; retry"@,
            ContractError::SubscriptionLockActive => "Active subscription lock cannot be unlocked; cancel the subscription first"@,
            ContractError::SubscriptionNotFound => "No subscription for this product; subscribe first"@,
            ContractError::NotSubscriptionOwner => "Only the subscription owner can perform this action"@,
            ContractError::SubscriptionNotActive => "This subscription is not active (cancelled, expired, or not yet started)"@,
            ContractError::NotCancelling => "Subscription is not scheduled to cancel at period end"@,
            ContractError::PeriodEnded => "Current billing period has ended; subscribe again with lock instead"@,
            ContractError::TargetBelowMinimum => "Target stake amount is below the price minimum"@,
            ContractError::TargetAboveMaximum => "Target stake amount is above the price maximum"@,
            ContractError::SubscriptionExistsForTarget => "Subscription already exists for target product"@,
            ContractError::TargetReservedByPendingUpdate => "Subscription already has a pending update for target product"@,
            ContractError::TargetValidatorMismatch => "Target product validator must match subscription lock validator"@,
            ContractError::NoLockForSubscription => "No lock is linked to this subscription"@,
            ContractError::PeriodAlreadyHasLock => "This subscription period already has an active lock"@,
            ContractError::PriceNotCurrentTier => "price_id must match current subscription tier"@,
            ContractError::LockedMustMatchStake => "Locked NEAR must match current subscription stake amount"@,
            ContractError::AttachedMustEqualIncrease => "Attached NEAR must equal the target stake increase"@,
            ContractError::OneYoctoRequired => "Requires attached deposit of exactly 1 yoctoNEAR"@,
            ContractError::IncreaseMintsNoShares => "Stake increase must mint at least one share"@,
            ContractError::LockAmountOverflow => "lock amount_near overflow"@,
            ContractError::SubscriptionIdNotFound => "Subscription not found"@,
            ContractError::NotSubscriptionLockOwner => "Only the lock owner can change this subscription lock"@,
            ContractError::UpdateCatalogValidatorMismatch => "Catalog validator for this price does not match the pool used for this subscription update"@,
            ContractError::UpdateLockValidatorMismatch => "Subscription lock validator does not match the update validator"@,
            ContractError::UpdatePeriodEnded => "Current period already ended; renew instead"@,
            ContractError::SubscriptionPeriodEnded => "Subscription billing period has already ended"@,
            ContractError::NonPositiveDuration => "Lock duration must be positive"@,
            ContractError::UnsettledDecrease => "Pending stake decrease requires validator settlement before apply"@,
            ContractError::LockIdNotFound => "Lock not found"@,
            ContractError::UnlockOwnerChanged => "Unlock no longer matches the lock owner; retry"@,
            ContractError::LockNoLongerActive => "Lock is no longer active; nothing to unlock"@,
            ContractError::NotFarmPrice => "This price is not a farm price"@,
            ContractError::FarmPriceForeign => "Farm price does not belong to this product"@,
            ContractError::FarmPriceInactive => "This farm price is archived or inactive"@,
            ContractError::MultipleActiveFarmPrices => "Product has multiple active farm prices"@,
            ContractError::NoActiveFarmPrice => "No active farm price for this product"@,
            ContractError::ExistingFarmPriceDiffers => "Existing farm position uses a different price"@,
            ContractError::FarmBelowMinimum => "Attached NEAR is below the farm price minimum amount"@,
            ContractError::FarmAboveMaximum => "Farm stake exceeds max_amount"@,
            ContractError::FarmPositionNotFound => "Farm position not found"@,
            ContractError::FarmPositionNotActive => "Farm position is not active"@,
            ContractError::FarmPositionEmpty => "Farm position has no shares"@,
            ContractError::FarmUnstakeZero => "Unstake amount must be greater than zero"@,
            ContractError::FarmNoEffectiveStake => "Cannot price farm unstake with no effective stake"@,
            ContractError::FarmSharesExceeded => "Cannot unstake more farm shares than the position holds"@,
            ContractError::FarmPoolUnderflow => "Farm pool shares underflow"@,
            ContractError::FarmCatalogValidatorMismatch => "Catalog validator for this farm price does not match the pool used for this stake"@,
            ContractError::FarmValidatorMismatch => "Farm validator mismatch"@,
            ContractError::FarmPoolNotFound => "Farm pool not found"@,
            ContractError::ActiveFarmPriceExists => "Product already has an active farm price"@,
            ContractError::ZeroQuantity => "Quantity must be greater than zero"@,
            ContractError::PaymentOverflow => "Payment amount overflow; reduce the quantity"@,
            ContractError::PaymentMismatch => "Attached deposit must equal price amount times quantity"@,
            ContractError::RevenueOverflow => "Validator revenue overflow; reduce payment amount"@,
            ContractError::ProductRevenueOverflow => "Product revenue overflow; reduce payment amount"@,
            ContractError::NoRevenue => "No revenue available to withdraw"@,
            ContractError::NoRewards => "No rewards are available to claim"@,
            ContractError::NotLockOwnerForRewardUpdate => "Only the lock owner can update rewards"@,
            ContractError::NotLockOwnerForRewardClaim => "Only the lock owner can claim rewards"@,
            ContractError::OracleFromFuture => "Oracle price timestamp is in the future"@,
            ContractError::OracleStale => "Oracle price data is too stale"@,
            ContractError::OracleNotCaller => "Only the configured oracle account may call oracle_on_call"@,
            ContractError::OracleNoPrice => "PriceData must include at least one price"@,
            ContractError::OracleMsgInvalid => "invalid oracle msg JSON"@,
            ContractError::OracleBelowMinLock => "Attached deposit below min_lock_amount"@,
            ContractError::OracleDurationOutOfBounds => "lock_duration_ns out of bounds"@,
            ContractError::OracleUnknownPrice => "Unknown price"@,
            ContractError::OracleUnknownProduct => "Unknown product"@,
            ContractError::OraclePriceNotActive => "Price not active"@,
            ContractError::OracleProductNotActive => "Product not active"@,
            ContractError::OracleMultiplierNotDecimal => "oracle price multiplier must be a decimal integer string"@,
        }
    }

    pub fn message(&self) -> (r: &'static str)
        ensures
            r@ == self.spec_message(),
    {
        match self {
            ContractError::MinLockAmountBelowProtocolFloor => "min_lock_amount must be at least 1 NEAR (stake pool delegation minimum)",
            ContractError::NotOwner => "Only the contract owner can call this method",
            ContractError::NotGuardianOrOwner => "Only a guardian or the contract owner can call this method",
            ContractError::NotProposedOwner => "Only the proposed new owner can call this method",
            ContractError::Paused => "The contract is paused; try again after it has been unpaused",
            ContractError::ValidatorAlreadyExists => "Validator already exists",
            ContractError::ValidatorNotFound => "Validator not found on the allowlist",
            ContractError::ValidatorNotEmpty => "Cannot remove this validator: all stake, pending stake/unstake, and withdraw bucket must be cleared first",
            ContractError::ValidatorNotActiveForLock => "This validator is paused or removed; new locks are not allowed on it",
            ContractError::ValidatorBusy => "Validator pool is busy; wait for the in-flight pool call to finish",
            ContractError::ValidatorNotBusy => "Validator pool must be busy after per-epoch settlement",
            ContractError::ValidatorMismatch => "Lock validator mismatch",
            ContractError::PoolOwnerUnavailable => "Could not read the validator pool owner; try again later",
            ContractError::NotValidatorOwner => "Only the validator owner can call this method",
            ContractError::NoEffectiveStakeForMint => "No effective stake for share minting; wait for balance refresh or settlement",
            ContractError::ShareMintOverflow => "Share mint amount does not fit in 128 bits",
            ContractError::PendingToStakeOverflow => "pending_to_stake overflow when recording this lock",
            ContractError::ZeroSharesToExit => "Cannot exit shares: amount must be greater than zero",
            ContractError::ExitExceedsPoolShares => "Cannot exit shares: validator pool has no shares or amount exceeds pool total",
            ContractError::NoEffectiveStakeForExit => "Cannot price this exit: no effective stake left for remaining shares; wait for stake or withdraw steps to finish, then retry",
            ContractError::PendingToUnstakeOverflow => "pending_to_unstake overflow",
            ContractError::InsufficientUserShares => "Cannot exit shares: account does not hold enough shares on this validator",
            ContractError::DepositAndStakeWithoutNetStake => "deposit_and_stake callback requires pending_to_stake > pending_to_unstake",
            ContractError::UnstakeWithoutNetUnstake => "unstake callback requires pending_to_unstake > pending_to_stake",
            ContractError::StakedBalanceOverflow => "total_staked_balance overflow after stake",
            ContractError::RecordedBalanceBelowWithdrawn => "Recorded pool balance is less than the withdrawn amount; retry after the next successful balance refresh from the pool",
            ContractError::PendingToClaimOverflow => "pending_to_claim overflow after pool transfer",
            ContractError::WithdrawRequiresUnstakedBalance => "Withdraw requires positive unstaked balance from the pool",
            ContractError::PoolNotWithdrawable => "Pool reports unstaked balance is not yet withdrawable",
            ContractError::NothingToClaimForValidator => "You have no unlocked NEAR waiting to claim for this validator",
            ContractError::EmptyClaimBucket => "No NEAR is in the withdraw bucket yet; wait until unstaked funds are moved from the pool (e.g. call withdraw again after epochs settle), or retry later",
            ContractError::ZeroUserLiability => "Nothing to claim: total user liability for this pool is zero (no tranches left to match the withdraw bucket)",
            ContractError::ClaimNotYetAvailable => "Nothing to claim yet: wait until `epoch_height >=` your tranche's available epoch height",
            ContractError::ClaimBucketTooSmall => "Withdraw bucket cannot cover all claimable tranches yet; call withdraw again after more pool funds arrive",
            ContractError::AccountNotRegistered => "Account not registered; call storage_deposit first",
            ContractError::StorageAttachRequired => "Attach NEAR for storage",
            ContractError::StorageDepositOverflow => "Storage deposit overflow; reduce the attached amount",
            ContractError::StorageBelowMinimum => "Attached deposit is less than the minimum storage balance",
            ContractError::StorageWithdrawZero => "Withdraw amount must be greater than zero",
            ContractError::StorageWithdrawTooLarge => "Withdraw exceeds available storage",
            ContractError::ForceUnregisterUnsupported => "Force unregister is not supported",
            ContractError::StorageForLock => "Top up storage for another lock",
            ContractError::StorageForPurchase => "Top up storage for another purchase",
            ContractError::StorageForFarmPosition => "Top up storage for another farm position",
            ContractError::StorageTopUp => "Top up storage (minimum prepaid)",
            ContractError::ProductNotFound => "Product not found in the catalog",
            ContractError::PriceNotFound => "Price not found in the catalog",
            ContractError::ProductArchivedOrInactive => "This product is archived or inactive",
            ContractError::ProductNotActive => "This product is not active; pick an active product",
            ContractError::PriceNotActive => "This price is not active; pick an active price",
            ContractError::ProductNotArchived => "Product is not archived",
            ContractError::PriceNotArchived => "Price is not archived",
            ContractError::ProductInUse => "Cannot delete this product while it is in use",
            ContractError::PriceInUse => "Cannot delete this price while it is in use",
            ContractError::ProductHasPrices => "Remove or delete all prices for this product first",
            ContractError::PriceNotOnProduct => "Price not listed on product",
            ContractError::PriceListedElsewhere => "Price does not belong to this product",
            ContractError::DefaultPriceNotActive => "Only an active (unarchived) price can be the default",
            ContractError::NoDefaultPrice => "No default price for this product",
            ContractError::DefaultPriceForeign => "Default price does not belong to this product",
            ContractError::BothPriceAndProduct => "Provide only one of price_id or product_id",
            ContractError::NeitherPriceNorProduct => "Provide price_id or product_id",
            ContractError::PendingUpdateReferencesPrice => "Cannot archive or delete this price while it is referenced by a pending subscription update",
            ContractError::PendingUpdateReferencesProduct => "Cannot archive or delete this product while it is referenced by a pending subscription update",
            ContractError::NotOneOffPrice => "This price is not a one-off product price",
            ContractError::OneOffWithBillingPeriod => "One-off price must not set billing_period",
            ContractError::NotRecurringPrice => "This price is not a recurring subscription price",
            ContractError::NotMonthly => "Only monthly billing is supported",
            ContractError::FarmPriceNeedsStake => "Use stake for farm prices",
            ContractError::AttachedBelowMinLock => "Attached NEAR is below the contract minimum lock amount (min_lock_amount)",
            ContractError::DurationRequired => "duration_ns is required for one-off prices",
            ContractError::DurationForbidden => "duration_ns must be omitted for recurring subscription prices",
            ContractError::DurationOutOfRange => "Lock duration is outside the allowed range for this contract",
            ContractError::LockTooSmall => "Locked NEAR or lock duration is too low for this catalog price",
            ContractError::CatalogValidatorMismatch => "Catalog validator for this price does not match the pool used for this lock",
            ContractError::LockNotFound => "Lock not found; check the lock id",
            ContractError::NotLockOwner => "Only the lock owner can unlock",
            ContractError::LockNotActive => "Lock is not active",
            ContractError::LockNotEnded => "Lock period has not ended yet",
            ContractError::LockSharesChanged => "Lock shares changed; retry",
            ContractError::SubscriptionLockActive => "Active subscription lock cannot be unlocked; cancel the subscription first",
            ContractError::SubscriptionNotFound => "No subscription for this product; subscribe first",
            ContractError::NotSubscriptionOwner => "Only the subscription owner can perform this action",
            ContractError::SubscriptionNotActive => "This subscription is not active (cancelled, expired, or not yet started)",
            ContractError::NotCancelling => "Subscription is not scheduled to cancel at period end",
            ContractError::PeriodEnded => "Current billing period has ended; subscribe again with lock instead",
            ContractError::TargetBelowMinimum => "Target stake amount is below the price minimum",
            ContractError::TargetAboveMaximum => "Target stake amount is above the price maximum",
            ContractError::SubscriptionExistsForTarget => "Subscription already exists for target product",
            ContractError::TargetReservedByPendingUpdate => "Subscription already has a pending update for target product",
            ContractError::TargetValidatorMismatch => "Target product validator must match subscription lock validator",
            ContractError::NoLockForSubscription => "No lock is linked to this subscription",
            ContractError::PeriodAlreadyHasLock => "This subscription period already has an active lock",
            ContractError::PriceNotCurrentTier => "price_id must match current subscription tier",
            ContractError::LockedMustMatchStake => "Locked NEAR must match current subscription stake amount",
            ContractError::AttachedMustEqualIncrease => "Attached NEAR must equal the target stake increase",
            ContractError::OneYoctoRequired => "Requires attached deposit of exactly 1 yoctoNEAR",
            ContractError::IncreaseMintsNoShares => "Stake increase must mint at least one share",
            ContractError::LockAmountOverflow => "lock amount_near overflow",
            ContractError::SubscriptionIdNotFound => "Subscription not found",
            ContractError::NotSubscriptionLockOwner => "Only the lock owner can change this subscription lock",
            ContractError::UpdateCatalogValidatorMismatch => "Catalog validator for this price does not match the pool used for this subscription update",
            ContractError::UpdateLockValidatorMismatch => "Subscription lock validator does not match the update validator",
            ContractError::UpdatePeriodEnded => "Current period already ended; renew instead",
            ContractError::SubscriptionPeriodEnded => "Subscription billing period has already ended",
            ContractError::NonPositiveDuration => "Lock duration must be positive",
            ContractError::UnsettledDecrease => "Pending stake decrease requires validator settlement before apply",
            ContractError::LockIdNotFound => "Lock not found",
            ContractError::UnlockOwnerChanged => "Unlock no longer matches the lock owner; retry",
            ContractError::LockNoLongerActive => "Lock is no longer active; nothing to unlock",
            ContractError::NotFarmPrice => "This price is not a farm price",
            ContractError::FarmPriceForeign => "Farm price does not belong to this product",
            ContractError::FarmPriceInactive => "This farm price is archived or inactive",
            ContractError::MultipleActiveFarmPrices => "Product has multiple active farm prices",
            ContractError::NoActiveFarmPrice => "No active farm price for this product",
            ContractError::ExistingFarmPriceDiffers => "Existing farm position uses a different price",
            ContractError::FarmBelowMinimum => "Attached NEAR is below the farm price minimum amount",
            ContractError::FarmAboveMaximum => "Farm stake exceeds max_amount",
            ContractError::FarmPositionNotFound => "Farm position not found",
            ContractError::FarmPositionNotActive => "Farm position is not active",
            ContractError::FarmPositionEmpty => "Farm position has no shares",
            ContractError::FarmUnstakeZero => "Unstake amount must be greater than zero",
            ContractError::FarmNoEffectiveStake => "Cannot price farm unstake with no effective stake",
            ContractError::FarmSharesExceeded => "Cannot unstake more farm shares than the position holds",
            ContractError::FarmPoolUnderflow => "Farm pool shares underflow",
            ContractError::FarmCatalogValidatorMismatch => "Catalog validator for this farm price does not match the pool used for this stake",
            ContractError::FarmValidatorMismatch => "Farm validator mismatch",
            ContractError::FarmPoolNotFound => "Farm pool not found",
            ContractError::ActiveFarmPriceExists => "Product already has an active farm price",
            ContractError::ZeroQuantity => "Quantity must be greater than zero",
            ContractError::PaymentOverflow => "Payment amount overflow; reduce the quantity",
            ContractError::PaymentMismatch => "Attached deposit must equal price amount times quantity",
            ContractError::RevenueOverflow => "Validator revenue overflow; reduce payment amount",
            ContractError::ProductRevenueOverflow => "Product revenue overflow; reduce payment amount",
            ContractError::NoRevenue => "No revenue available to withdraw",
            ContractError::NoRewards => "No rewards are available to claim",
            ContractError::NotLockOwnerForRewardUpdate => "Only the lock owner can update rewards",
            ContractError::NotLockOwnerForRewardClaim => "Only the lock owner can claim rewards",
            ContractError::OracleFromFuture => "Oracle price timestamp is in the future",
            ContractError::OracleStale => "Oracle price data is too stale",
            ContractError::OracleNotCaller => "Only the configured oracle account may call oracle_on_call",
            ContractError::OracleNoPrice => "PriceData must include at least one price",
            ContractError::OracleMsgInvalid => "invalid oracle msg JSON",
            ContractError::OracleBelowMinLock => "Attached deposit below min_lock_amount",
            ContractError::OracleDurationOutOfBounds => "lock_duration_ns out of bounds",
            ContractError::OracleUnknownPrice => "Unknown price",
            ContractError::OracleUnknownProduct => "Unknown product",
            ContractError::OraclePriceNotActive => "Price not active",
            ContractError::OracleProductNotActive => "Product not active",
            ContractError::OracleMultiplierNotDecimal => "oracle price multiplier must be a decimal integer string",
        }
    }
}

} // verus!
