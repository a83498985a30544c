//! Catalog products and prices: creation, edits, archive lifecycle, default-price binding, and
//! the checks a lock or payment runs against them.

use crate::errors::ContractError;
use crate::pricing::{check_lock_weight, min_locked_yocto_for_duration, spec_lock_weight_ok, spec_min_locked, spec_required_near_months, AVG_MONTH_NS};
use crate::strvec::{seq_has, seq_without, contains_str, remove_str};
use crate::types::{opt_ref, BillingPeriod, CatalogStatus, Price, PriceId, PriceMetadata, PriceType, Product, ProductId, ValidatorId, AccountId};
use vstd::prelude::*;

verus! {

impl Price {
    pub open spec fn spec_lock_ok(&self, locked: int, duration_ns: int) -> bool {
        spec_lock_weight_ok(self.amount as int, self.lock_factor_near_months as int, locked, duration_ns)
    }

    /// Enforces `locked * duration_ns >= required_near_months * AVG_MONTH_NS` for this price.
    pub fn check_near_price_lock(&self, locked_yocto: u128, duration_ns: u128) -> (r: Result<(), ContractError>)
        ensures
            r == if self.spec_lock_ok(locked_yocto as int, duration_ns as int) {
                Ok(())
            } else {
                Err(ContractError::LockTooSmall)
            },
    {
        match check_lock_weight(self.amount, self.lock_factor_near_months, locked_yocto, duration_ns) {
            Ok(()) => Ok(()),
            Err(_) => Err(ContractError::LockTooSmall),
        }
    }

    /// Smallest locked amount this price accepts for `duration_ns`.
    pub fn min_locked_yocto_for_duration(&self, duration_ns: u128) -> (r: u128)
        requires
            duration_ns == 0 || spec_required_near_months(
                self.amount as int,
                self.lock_factor_near_months as int,
            ) * (AVG_MONTH_NS as int) / (duration_ns as int) <= u128::MAX,
        ensures
            r == spec_min_locked(self.amount as int, self.lock_factor_near_months as int, duration_ns as int),
    {
        min_locked_yocto_for_duration(self.amount, self.lock_factor_near_months, duration_ns)
    }

    /// The inclusive stake ceiling from the price metadata, if any.
    pub open spec fn spec_max_amount(&self) -> Option<u128> {
        match self.metadata {
            Some(m) => m.max_amount,
            None => None,
        }
    }

    pub fn max_amount(&self) -> (r: Option<u128>)
        ensures
            r == self.spec_max_amount(),
    {
        match &self.metadata {
            Some(m) => m.max_amount,
            None => None,
        }
    }

    /// A new active price line with no usage.
    pub fn new(
        price_id: PriceId,
        product_id: ProductId,
        name: String,
        description: String,
        amount: u128,
        price_type: PriceType,
        billing_period: Option<BillingPeriod>,
        lock_factor_near_months: u128,
        metadata: Option<PriceMetadata>,
    ) -> (p: Price)
        ensures
            p == (Price {
                price_id,
                product_id,
                name,
                description,
                amount,
                price_type,
                billing_period,
                lock_factor_near_months,
                metadata,
                status: CatalogStatus::Active,
                usage_count: 0,
            }),
    {
        Price {
            price_id,
            product_id,
            name,
            description,
            amount,
            price_type,
            billing_period,
            lock_factor_near_months,
            metadata,
            status: CatalogStatus::Active,
            usage_count: 0,
        }
    }

    /// Display fields only; amount, type and billing are fixed after creation.
    pub fn edit(&mut self, name: String, description: String)
        ensures
            *final(self) == (Price { name, description, ..*old(self) }),
    {
        self.name = name;
        self.description = description;
    }

    /// Archives the price unless a pending subscription update targets it.
    pub fn archive(&mut self, pending_update_refs: u32) -> (r: Result<(), ContractError>)
        ensures
            pending_update_refs > 0 ==> r == Err::<(), ContractError>(
                ContractError::PendingUpdateReferencesPrice,
            ) && *final(self) == *old(self),
            pending_update_refs == 0 ==> r is Ok && *final(self) == (Price {
                status: CatalogStatus::Archived,
                ..*old(self)
            }),
    {
        if pending_update_refs > 0 {
            return Err(ContractError::PendingUpdateReferencesPrice);
        }
        self.status = CatalogStatus::Archived;
        Ok(())
    }

    /// Restores an archived price.
    pub fn unarchive(&mut self) -> (r: Result<(), ContractError>)
        ensures
            old(self).status != CatalogStatus::Archived ==> r == Err::<(), ContractError>(
                ContractError::PriceNotArchived,
            ) && *final(self) == *old(self),
            old(self).status == CatalogStatus::Archived ==> r is Ok && *final(self) == (Price {
                status: CatalogStatus::Active,
                ..*old(self)
            }),
    {
        if self.status != CatalogStatus::Archived {
            return Err(ContractError::PriceNotArchived);
        }
        self.status = CatalogStatus::Active;
        Ok(())
    }

    /// A price may be deleted only when never used and not targeted by a pending update.
    pub fn check_delete(&self, pending_update_refs: u32) -> (r: Result<(), ContractError>)
        ensures
            r == if self.usage_count != 0 {
                Err(ContractError::PriceInUse)
            } else if pending_update_refs > 0 {
                Err(ContractError::PendingUpdateReferencesPrice)
            } else {
                Ok(())
            },
    {
        if self.usage_count != 0 {
            return Err(ContractError::PriceInUse);
        }
        if pending_update_refs > 0 {
            return Err(ContractError::PendingUpdateReferencesPrice);
        }
        Ok(())
    }

    /// Recurring prices must bill monthly.
    pub fn require_recurring_monthly(&self) -> (r: Result<(), ContractError>)
        ensures
            r == if self.price_type != PriceType::Recurring {
                Err(ContractError::NotRecurringPrice)
            } else if self.billing_period is None {
                Err(ContractError::NotMonthly)
            } else {
                Ok(())
            },
    {
        if self.price_type != PriceType::Recurring {
            return Err(ContractError::NotRecurringPrice);
        }
        match self.billing_period {
            Some(BillingPeriod::Monthly) => Ok(()),
            None => Err(ContractError::NotMonthly),
        }
    }

    /// One-off prices carry no billing period.
    pub fn require_one_off(&self) -> (r: Result<(), ContractError>)
        ensures
            r == if self.price_type != PriceType::OneOff {
                Err(ContractError::NotOneOffPrice)
            } else if self.billing_period is Some {
                Err(ContractError::OneOffWithBillingPeriod)
            } else {
                Ok(())
            },
    {
        if self.price_type != PriceType::OneOff {
            return Err(ContractError::NotOneOffPrice);
        }
        if self.billing_period.is_some() {
            return Err(ContractError::OneOffWithBillingPeriod);
        }
        Ok(())
    }
}

impl Product {
    /// A new active product with no prices.
    pub fn new(
        product_id: ProductId,
        validator_id: ValidatorId,
        name: String,
        description: String,
        now_ns: u64,
    ) -> (p: Product)
        ensures
            p.product_id == product_id,
            p.validator_id == validator_id,
            p.name == name,
            p.description == description,
            p.status == CatalogStatus::Active,
            p.created_ns == now_ns,
            p.price_ids@ == Seq::<PriceId>::empty(),
            p.default_price_id is None,
            p.usage_count == 0,
    {
        Product {
            product_id,
            validator_id,
            name,
            description,
            status: CatalogStatus::Active,
            created_ns: now_ns,
            price_ids: Vec::new(),
            default_price_id: None,
            usage_count: 0,
        }
    }

    pub fn edit(&mut self, name: String, description: String)
        ensures
            *final(self) == (Product { name, description, ..*old(self) }),
    {
        self.name = name;
        self.description = description;
    }

    /// Archives the product and clears its default price, unless a pending subscription update
    /// targets it.
    pub fn archive(&mut self, pending_update_refs: u32) -> (r: Result<(), ContractError>)
        ensures
            pending_update_refs > 0 ==> r == Err::<(), ContractError>(
                ContractError::PendingUpdateReferencesProduct,
            ) && *final(self) == *old(self),
            pending_update_refs == 0 ==> r is Ok && *final(self) == (Product {
                status: CatalogStatus::Archived,
                default_price_id: None,
                ..*old(self)
            }),
    {
        if pending_update_refs > 0 {
            return Err(ContractError::PendingUpdateReferencesProduct);
        }
        self.default_price_id = None;
        self.status = CatalogStatus::Archived;
        Ok(())
    }

    pub fn unarchive(&mut self) -> (r: Result<(), ContractError>)
        ensures
            old(self).status != CatalogStatus::Archived ==> r == Err::<(), ContractError>(
                ContractError::ProductNotArchived,
            ) && *final(self) == *old(self),
            old(self).status == CatalogStatus::Archived ==> r is Ok && *final(self) == (Product {
                status: CatalogStatus::Active,
                ..*old(self)
            }),
    {
        if self.status != CatalogStatus::Archived {
            return Err(ContractError::ProductNotArchived);
        }
        self.status = CatalogStatus::Active;
        Ok(())
    }

    /// A product may be deleted only when never used, not targeted by a pending update, and
    /// without prices.
    pub fn check_delete(&self, pending_update_refs: u32) -> (r: Result<(), ContractError>)
        ensures
            r == if self.usage_count != 0 {
                Err(ContractError::ProductInUse)
            } else if pending_update_refs > 0 {
                Err(ContractError::PendingUpdateReferencesProduct)
            } else if self.price_ids@.len() != 0 {
                Err(ContractError::ProductHasPrices)
            } else {
                Ok(())
            },
    {
        if self.usage_count != 0 {
            return Err(ContractError::ProductInUse);
        }
        if pending_update_refs > 0 {
            return Err(ContractError::PendingUpdateReferencesProduct);
        }
        if self.price_ids.len() != 0 {
            return Err(ContractError::ProductHasPrices);
        }
        Ok(())
    }

    /// A price may be added only to an active product.
    pub fn add_price_id(&mut self, price_id: PriceId) -> (r: Result<(), ContractError>)
        ensures
            old(self).status != CatalogStatus::Active ==> r == Err::<(), ContractError>(
                ContractError::ProductArchivedOrInactive,
            ) && *final(self) == *old(self),
            old(self).status == CatalogStatus::Active ==> r is Ok && final(self).price_ids@ == old(
                self,
            ).price_ids@.push(price_id) && *final(self) == (Product {
                price_ids: final(self).price_ids,
                ..*old(self)
            }),
    {
        if self.status != CatalogStatus::Active {
            return Err(ContractError::ProductArchivedOrInactive);
        }
        self.price_ids.push(price_id);
        Ok(())
    }

    /// Drops a deleted price from the list and from the default when it was the default.
    pub fn remove_price_id(&mut self, price_id: &PriceId)
        ensures
            final(self).price_ids@ == seq_without(old(self).price_ids@, price_id@),
            final(self).default_price_id == if old(self).default_price_id matches Some(d) && d@
                == price_id@ {
                None
            } else {
                old(self).default_price_id
            },
            *final(self) == (Product {
                price_ids: final(self).price_ids,
                default_price_id: final(self).default_price_id,
                ..*old(self)
            }),
    {
        remove_str(&mut self.price_ids, price_id);
        self.clear_default_price_if_matches(price_id);
    }

    /// Clears the default when it names `price_id`.
    pub fn clear_default_price_if_matches(&mut self, price_id: &PriceId)
        ensures
            final(self).default_price_id == if old(self).default_price_id matches Some(d) && d@
                == price_id@ {
                None
            } else {
                old(self).default_price_id
            },
            *final(self) == (Product { default_price_id: final(self).default_price_id, ..*old(self) }),
    {
        let matches = match &self.default_price_id {
            Some(d) => *d == *price_id,
            None => false,
        };
        if matches {
            self.default_price_id = None;
        }
    }

    /// Binds or clears the default price. A bound price must be found, belong to this product,
    /// be active, and be listed on it.
    pub fn set_default_price(&mut self, price_id: Option<PriceId>, price: Option<&Price>) -> (r: Result<
        (),
        ContractError,
    >)
        ensures
            r == spec_set_default_result(*old(self), price_id, opt_ref(price)),
            r is Err ==> *final(self) == *old(self),
            r is Ok ==> *final(self) == (Product { default_price_id: price_id, ..*old(self) }),
    {
        if self.status != CatalogStatus::Active {
            return Err(ContractError::ProductArchivedOrInactive);
        }
        match price_id {
            None => {
                self.default_price_id = None;
                Ok(())
            },
            Some(pid) => {
                let p = match price {
                    Some(p) => p,
                    None => {
                        return Err(ContractError::PriceNotFound);
                    },
                };
                if p.product_id != self.product_id {
                    return Err(ContractError::PriceListedElsewhere);
                }
                if p.status != CatalogStatus::Active {
                    return Err(ContractError::DefaultPriceNotActive);
                }
                if !contains_str(&self.price_ids, &pid) {
                    return Err(ContractError::PriceNotOnProduct);
                }
                self.default_price_id = Some(pid);
                Ok(())
            },
        }
    }
}

pub open spec fn spec_set_default_result(
    product: Product,
    price_id: Option<PriceId>,
    price: Option<Price>,
) -> Result<(), ContractError> {
    if product.status != CatalogStatus::Active {
        Err(ContractError::ProductArchivedOrInactive)
    } else {
        match price_id {
            None => Ok(()),
            Some(pid) => match price {
                None => Err(ContractError::PriceNotFound),
                Some(p) => if p.product_id@ != product.product_id@ {
                    Err(ContractError::PriceListedElsewhere)
                } else if p.status != CatalogStatus::Active {
                    Err(ContractError::DefaultPriceNotActive)
                } else if !seq_has(product.price_ids@, pid@) {
                    Err(ContractError::PriceNotOnProduct)
                } else {
                    Ok(())
                },
            },
        }
    }
}

/// A lock or payment needs the price and its product both present and active.
pub open spec fn spec_active_price_and_product(price: Option<Price>, product: Option<Product>) -> Result<
    (),
    ContractError,
> {
    match price {
        None => Err(ContractError::PriceNotFound),
        Some(p) => if p.status != CatalogStatus::Active {
            Err(ContractError::PriceNotActive)
        } else {
            match product {
                None => Err(ContractError::ProductNotFound),
                Some(q) => if q.status != CatalogStatus::Active {
                    Err(ContractError::ProductNotActive)
                } else {
                    Ok(())
                },
            }
        },
    }
}

pub fn get_active_price_and_product(price: Option<&Price>, product: Option<&Product>) -> (r: Result<
    (),
    ContractError,
>)
    ensures
        r == spec_active_price_and_product(opt_ref(price), opt_ref(product)),
{
    let p = match price {
        Some(p) => p,
        None => {
            return Err(ContractError::PriceNotFound);
        },
    };
    if p.status != CatalogStatus::Active {
        return Err(ContractError::PriceNotActive);
    }
    match product {
        None => Err(ContractError::ProductNotFound),
        Some(q) => if q.status != CatalogStatus::Active {
            Err(ContractError::ProductNotActive)
        } else {
            Ok(())
        },
    }
}

/// Picks the price for a lock or payment: exactly one of `price_id` and `product_id` must be
/// given; a product resolves to its default price, which must belong to it. `product` is the
/// record named by `product_id` and `default_price` the record of its default price id.
pub fn resolve_price_id_for_lock(
    price_id: Option<PriceId>,
    product_id: Option<ProductId>,
    product: Option<&Product>,
    default_price: Option<&Price>,
) -> (r: Result<PriceId, ContractError>)
    ensures
        r == spec_resolve_price_id(
            price_id,
            product_id,
            opt_ref(product),
            opt_ref(default_price),
        ),
{
    match (price_id, product_id) {
        (Some(pid), None) => Ok(pid),
        (None, Some(prod_id)) => {
            let default_id = match product {
                Some(p) => match &p.default_price_id {
                    Some(d) => d.clone(),
                    None => {
                        return Err(ContractError::NoDefaultPrice);
                    },
                },
                None => {
                    return Err(ContractError::NoDefaultPrice);
                },
            };
            match default_price {
                None => Err(ContractError::PriceNotFound),
                Some(pr) => if pr.product_id == prod_id {
                    Ok(default_id)
                } else {
                    Err(ContractError::DefaultPriceForeign)
                },
            }
        },
        (Some(_), Some(_)) => Err(ContractError::BothPriceAndProduct),
        (None, None) => Err(ContractError::NeitherPriceNorProduct),
    }
}

pub open spec fn spec_resolve_price_id(
    price_id: Option<PriceId>,
    product_id: Option<ProductId>,
    product: Option<Product>,
    default_price: Option<Price>,
) -> Result<PriceId, ContractError> {
    match (price_id, product_id) {
        (Some(pid), None) => Ok(pid),
        (None, Some(prod_id)) => match product {
            Some(p) => match p.default_price_id {
                Some(d) => match default_price {
                    None => Err(ContractError::PriceNotFound),
                    Some(pr) => if pr.product_id@ == prod_id@ {
                        Ok(d)
                    } else {
                        Err(ContractError::DefaultPriceForeign)
                    },
                },
                None => Err(ContractError::NoDefaultPrice),
            },
            None => Err(ContractError::NoDefaultPrice),
        },
        (Some(_), Some(_)) => Err(ContractError::BothPriceAndProduct),
        (None, None) => Err(ContractError::NeitherPriceNorProduct),
    }
}

/// After the pool's `get_owner_id`: the call succeeded, the contract is not paused, and the
/// caller is the pool owner.
pub fn assert_validator_owner(
    owner_call_ok: bool,
    paused: bool,
    pool_owner: &AccountId,
    caller: &AccountId,
) -> (r: Result<(), ContractError>)
    ensures
        r == if !owner_call_ok {
            Err(ContractError::PoolOwnerUnavailable)
        } else if paused {
            Err(ContractError::Paused)
        } else if pool_owner@ != caller@ {
            Err(ContractError::NotValidatorOwner)
        } else {
            Ok(())
        },
{
    if !owner_call_ok {
        return Err(ContractError::PoolOwnerUnavailable);
    }
    if paused {
        return Err(ContractError::Paused);
    }
    if *pool_owner != *caller {
        return Err(ContractError::NotValidatorOwner);
    }
    Ok(())
}

/// Preamble of a pool-owner catalog call: one attached yocto, not paused, the pool allowlisted.
pub fn catalog_admin_entry_for_pool(attached: u128, paused: bool, validator_found: bool) -> (r: Result<
    (),
    ContractError,
>)
    ensures
        r == if attached != 1 {
            Err(ContractError::OneYoctoRequired)
        } else if paused {
            Err(ContractError::Paused)
        } else if !validator_found {
            Err(ContractError::ValidatorNotFound)
        } else {
            Ok(())
        },
{
    if attached != 1 {
        return Err(ContractError::OneYoctoRequired);
    }
    if paused {
        return Err(ContractError::Paused);
    }
    if !validator_found {
        return Err(ContractError::ValidatorNotFound);
    }
    Ok(())
}

/// Creates a price under an active product once the pool owner is confirmed. Returns the new
/// price and the product listing it.
pub fn create_price_after_get_owner(
    owner_check: Result<(), ContractError>,
    product: Option<Product>,
    price_id: PriceId,
    name: String,
    description: String,
    amount: u128,
    price_type: PriceType,
    billing_period: Option<BillingPeriod>,
    lock_factor_near_months: u128,
    metadata: Option<PriceMetadata>,
) -> (r: Result<(Price, Product), ContractError>)
    ensures
        owner_check is Err ==> r == Err::<(Price, Product), ContractError>(owner_check->Err_0),
        owner_check is Ok && product is None ==> r == Err::<(Price, Product), ContractError>(
            ContractError::ProductNotFound,
        ),
        owner_check is Ok && (product matches Some(q) && q.status != CatalogStatus::Active) ==> r
            == Err::<(Price, Product), ContractError>(ContractError::ProductArchivedOrInactive),
        r is Ok <==> (owner_check is Ok && (product matches Some(q) && q.status
            == CatalogStatus::Active)),
        r matches Ok((p, q)) ==> {
            &&& owner_check is Ok
            &&& p == (Price {
                price_id,
                product_id: product.unwrap().product_id,
                name,
                description,
                amount,
                price_type,
                billing_period,
                lock_factor_near_months,
                metadata,
                status: CatalogStatus::Active,
                usage_count: 0,
            })
            &&& q == (Product {
                price_ids: q.price_ids,
                ..product.unwrap()
            })
            &&& q.price_ids@ == product.unwrap().price_ids@.push(price_id)
        },
{
    match owner_check {
        Ok(()) => {},
        Err(e) => {
            return Err(e);
        },
    }
    let mut q = match product {
        Some(q) => q,
        None => {
            return Err(ContractError::ProductNotFound);
        },
    };
    if q.status != CatalogStatus::Active {
        return Err(ContractError::ProductArchivedOrInactive);
    }
    let p = Price::new(
        price_id.clone(),
        q.product_id.clone(),
        name,
        description,
        amount,
        price_type,
        billing_period,
        lock_factor_near_months,
        metadata,
    );
    match q.add_price_id(price_id) {
        Ok(()) => {},
        Err(e) => {
            return Err(e);
        },
    }
    Ok((p, q))
}

/// Deletes an unused price not targeted by a pending update once the pool owner is confirmed:
/// it leaves its product's list and, when it was the default, the default. Returns the product.
pub fn delete_price_after_get_owner(
    owner_check: Result<(), ContractError>,
    price: Option<&Price>,
    pending_update_refs: u32,
    product: Option<Product>,
) -> (r: Result<Product, ContractError>)
    ensures
        r is Ok <==> (owner_check is Ok && price is Some && price.unwrap().usage_count == 0
            && pending_update_refs == 0 && product is Some),
        owner_check is Err ==> r == Err::<Product, ContractError>(owner_check->Err_0),
        owner_check is Ok && price is None ==> r == Err::<Product, ContractError>(
            ContractError::PriceNotFound,
        ),
        owner_check is Ok && (price matches Some(p) && p.usage_count != 0) ==> r == Err::<
            Product,
            ContractError,
        >(ContractError::PriceInUse),
        r matches Ok(q) ==> {
            let pid = price.unwrap().price_id;
            let old_q = product.unwrap();
            &&& q.price_ids@ == seq_without(old_q.price_ids@, pid@)
            &&& q.default_price_id == if old_q.default_price_id matches Some(d) && d@ == pid@ {
                None
            } else {
                old_q.default_price_id
            }
            &&& q == (Product {
                price_ids: q.price_ids,
                default_price_id: q.default_price_id,
                ..old_q
            })
        },
{
    match owner_check {
        Ok(()) => {},
        Err(e) => {
            return Err(e);
        },
    }
    let p = match price {
        Some(p) => p,
        None => {
            return Err(ContractError::PriceNotFound);
        },
    };
    match p.check_delete(pending_update_refs) {
        Ok(()) => {},
        Err(e) => {
            return Err(e);
        },
    }
    let mut q = match product {
        Some(q) => q,
        None => {
            return Err(ContractError::ProductNotFound);
        },
    };
    q.remove_price_id(&p.price_id);
    Ok(q)
}

/// A new active product on the pool, created once the pool owner is confirmed.
pub fn create_product_after_get_owner(
    owner_check: Result<(), ContractError>,
    product_id: ProductId,
    validator_id: ValidatorId,
    name: String,
    description: String,
    now_ns: u64,
) -> (r: Result<Product, ContractError>)
    ensures
        owner_check is Err ==> r == Err::<Product, ContractError>(owner_check->Err_0),
        owner_check is Ok ==> (r matches Ok(p) && p.product_id == product_id && p.validator_id
            == validator_id && p.name == name && p.description == description && p.status
            == CatalogStatus::Active && p.created_ns == now_ns && p.price_ids@.len() == 0
            && p.default_price_id is None && p.usage_count == 0),
{
    match owner_check {
        Ok(()) => {},
        Err(e) => {
            return Err(e);
        },
    }
    Ok(Product::new(product_id, validator_id, name, description, now_ns))
}

} // verus!
