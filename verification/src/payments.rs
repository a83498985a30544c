//! Direct NEAR payments for one-off catalog prices, and the revenue they accrue to validators and
//! products.

use crate::catalog::{get_active_price_and_product, spec_active_price_and_product};
use crate::errors::ContractError;
use crate::types::{
    opt_ref, AccountId, CatalogStatus, Price, PriceType, Product, Purchase, PurchaseId, Validator,
    ValidatorStatus,
};
use vstd::prelude::*;

verus! {

/// Checks of a payment: not paused, a positive quantity, storage for one more purchase, an
/// active price and product on an active validator, a one-off price without billing period,
/// and exactly `amount * quantity` attached. Returns the amount.
pub open spec fn spec_payment_check(
    paused: bool,
    quantity: int,
    storage: Result<(), ContractError>,
    price: Option<Price>,
    product: Option<Product>,
    validator: Option<Validator>,
    paid: int,
) -> Result<u128, ContractError> {
    let active = spec_active_price_and_product(price, product);
    if paused {
        Err(ContractError::Paused)
    } else if quantity == 0 {
        Err(ContractError::ZeroQuantity)
    } else if storage is Err {
        Err(storage->Err_0)
    } else if active is Err {
        Err(active->Err_0)
    } else if validator is None {
        Err(ContractError::ValidatorNotFound)
    } else if validator.unwrap().status != ValidatorStatus::Active {
        Err(ContractError::ValidatorNotActiveForLock)
    } else if price.unwrap().price_type != PriceType::OneOff {
        Err(ContractError::NotOneOffPrice)
    } else if price.unwrap().billing_period is Some {
        Err(ContractError::OneOffWithBillingPeriod)
    } else if price.unwrap().amount * quantity > u128::MAX {
        Err(ContractError::PaymentOverflow)
    } else if paid != price.unwrap().amount * quantity {
        Err(ContractError::PaymentMismatch)
    } else {
        Ok(paid as u128)
    }
}

pub fn check_payment(
    paused: bool,
    quantity: u64,
    storage: Result<(), ContractError>,
    price: Option<&Price>,
    product: Option<&Product>,
    validator: Option<&Validator>,
    paid: u128,
) -> (r: Result<u128, ContractError>)
    ensures
        r == spec_payment_check(
            paused,
            quantity as int,
            storage,
            opt_ref(price),
            opt_ref(product),
            opt_ref(validator),
            paid as int,
        ),
{
    if paused {
        return Err(ContractError::Paused);
    }
    if quantity == 0 {
        return Err(ContractError::ZeroQuantity);
    }
    match storage {
        Ok(()) => {},
        Err(e) => {
            return Err(e);
        },
    }
    match get_active_price_and_product(price, product) {
        Ok(()) => {},
        Err(e) => {
            return Err(e);
        },
    }
    match crate::lock::check_validator_active_for_lock(validator) {
        Ok(()) => {},
        Err(e) => {
            return Err(e);
        },
    }
    let p = price.unwrap();
    match p.require_one_off() {
        Ok(()) => {},
        Err(e) => {
            return Err(e);
        },
    }
    let expected = match p.amount.checked_mul(quantity as u128) {
        Some(x) => x,
        None => {
            return Err(ContractError::PaymentOverflow);
        },
    };
    if paid != expected {
        return Err(ContractError::PaymentMismatch);
    }
    Ok(paid)
}

/// A payment is accepted only for exactly `amount * quantity` attached, and then records that
/// amount as paid; once a payment would be accepted, any other attached amount on the same
/// inputs is refused with `PaymentMismatch`.
pub proof fn lemma_payment_must_be_exact(
    paused: bool,
    quantity: u64,
    storage: Result<(), ContractError>,
    price: Option<Price>,
    product: Option<Product>,
    validator: Option<Validator>,
    paid: u128,
    other: u128,
)
    ensures
        spec_payment_check(paused, quantity as int, storage, price, product, validator, paid as int)
            matches Ok(recorded) ==> {
            &&& price is Some
            &&& paid == price.unwrap().amount * quantity
            &&& recorded == paid
            &&& other != paid ==> spec_payment_check(
                paused,
                quantity as int,
                storage,
                price,
                product,
                validator,
                other as int,
            ) == Err::<u128, ContractError>(ContractError::PaymentMismatch)
        },
{
}

/// Adds revenue to a balance; refuses what does not fit.
pub fn add_revenue(current: Option<u128>, amount: u128, overflow: ContractError) -> (r: Result<u128, ContractError>)
    ensures
        ({
            let c = match current {
                Some(c) => c as int,
                None => 0,
            };
            r == if c + amount > u128::MAX {
                Err(overflow)
            } else {
                Ok((c + amount) as u128)
            }
        }),
{
    let c: u128 = match current {
        Some(c) => c,
        None => 0,
    };
    match c.checked_add(amount) {
        Some(x) => Ok(x),
        None => Err(overflow),
    }
}

/// Everything a payment writes.
#[derive(Debug)]
pub struct PaymentCommit {
    pub purchase: Purchase,
    /// The price with one more use.
    pub price: Price,
    /// The product with one more use.
    pub product: Product,
    /// Purchases the buyer has created, this one included.
    pub user_purchase_count: u32,
    pub validator_revenue: u128,
    pub product_revenue: u128,
}

/// Records a checked payment of `paid` for `quantity` of the price: the purchase, one more use
/// of the price and product, one more purchase of the buyer, and the revenue on the product's
/// validator and on the product.
pub fn commit_payment(
    purchase_id: PurchaseId,
    buyer: &AccountId,
    price: Price,
    product: Product,
    quantity: u64,
    paid: u128,
    user_purchase_count: u32,
    validator_revenue: Option<u128>,
    product_revenue: Option<u128>,
    now_ns: u64,
) -> (r: Result<PaymentCommit, ContractError>)
    ensures
        ({
            let vr = match validator_revenue {
                Some(c) => c as int,
                None => 0,
            };
            let pr = match product_revenue {
                Some(c) => c as int,
                None => 0,
            };
            &&& r == Err::<PaymentCommit, ContractError>(ContractError::RevenueOverflow) <==> vr
                + paid > u128::MAX
            &&& r == Err::<PaymentCommit, ContractError>(ContractError::ProductRevenueOverflow) <==> (
            vr + paid <= u128::MAX && pr + paid > u128::MAX)
            &&& r is Ok <==> (vr + paid <= u128::MAX && pr + paid <= u128::MAX)
            &&& r matches Ok(c) ==> {
                &&& c.purchase == (Purchase {
                    purchase_id,
                    account_id: *buyer,
                    product_id: product.product_id,
                    price_id: price.price_id,
                    quantity,
                    amount_paid: paid,
                    created_ns: now_ns,
                })
                &&& c.price == (Price {
                    usage_count: crate::subscriptions::sat_inc_u64(price.usage_count),
                    ..price
                })
                &&& c.product == (Product {
                    usage_count: crate::subscriptions::sat_inc_u64(product.usage_count),
                    ..product
                })
                &&& c.user_purchase_count == crate::lock::sat_inc_u32(user_purchase_count)
                &&& c.validator_revenue == vr + paid
                &&& c.product_revenue == pr + paid
            }
        }),
{
    let vr = match add_revenue(validator_revenue, paid, ContractError::RevenueOverflow) {
        Ok(x) => x,
        Err(e) => {
            return Err(e);
        },
    };
    let pr = match add_revenue(product_revenue, paid, ContractError::ProductRevenueOverflow) {
        Ok(x) => x,
        Err(e) => {
            return Err(e);
        },
    };
    let mut price = price;
    let mut product = product;
    let purchase = Purchase {
        purchase_id,
        account_id: buyer.clone(),
        product_id: product.product_id.clone(),
        price_id: price.price_id.clone(),
        quantity,
        amount_paid: paid,
        created_ns: now_ns,
    };
    price.usage_count = price.usage_count.saturating_add(1);
    product.usage_count = product.usage_count.saturating_add(1);
    Ok(
        PaymentCommit {
            purchase,
            price,
            product,
            user_purchase_count: user_purchase_count.saturating_add(1),
            validator_revenue: vr,
            product_revenue: pr,
        },
    )
}

/// Revenue withdrawal after the pool owner check: all of the validator's revenue is paid out and
/// its balance drops to zero.
pub fn withdraw_revenue_after_get_owner(owner_check: Result<(), ContractError>, balance: Option<u128>) -> (r:
    Result<u128, ContractError>)
    ensures
        r == if owner_check is Err {
            Err(owner_check->Err_0)
        } else {
            match balance {
                Some(b) => if b > 0 {
                    Ok(b)
                } else {
                    Err(ContractError::NoRevenue)
                },
                None => Err(ContractError::NoRevenue),
            }
        },
{
    match owner_check {
        Ok(()) => {},
        Err(e) => {
            return Err(e);
        },
    }
    match balance {
        Some(b) => if b > 0 {
            Ok(b)
        } else {
            Err(ContractError::NoRevenue)
        },
        None => Err(ContractError::NoRevenue),
    }
}

} // verus!
