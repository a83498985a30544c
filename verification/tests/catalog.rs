use staking_contract::catalog::get_active_price_and_product;
use staking_contract::errors::ContractError;
use staking_contract::payments::{add_revenue, check_payment, commit_payment, withdraw_revenue_after_get_owner};
use staking_contract::types::{BillingPeriod, CatalogStatus, Price, PriceType, Product, Validator, ValidatorStatus};

fn one_off(amount: u128) -> Price {
    Price::new(
        "price_1".to_string(),
        "prod_1".to_string(),
        "Price".to_string(),
        String::new(),
        amount,
        PriceType::OneOff,
        None,
        0,
        None,
    )
}

fn product() -> Product {
    Product::new("prod_1".to_string(), "pool.near".to_string(), "Product".to_string(), String::new(), 5)
}

#[test]
fn prices_archive_unless_an_update_targets_them() {
    let mut price = one_off(10);
    assert_eq!(price.archive(1), Err(ContractError::PendingUpdateReferencesPrice));
    assert_eq!(price.status, CatalogStatus::Active);
    assert_eq!(price.unarchive(), Err(ContractError::PriceNotArchived));
    assert_eq!(price.archive(0), Ok(()));
    assert_eq!(price.status, CatalogStatus::Archived);
    assert_eq!(price.unarchive(), Ok(()));
    assert_eq!(price.check_delete(0), Ok(()));
    price.usage_count = 1;
    assert_eq!(price.check_delete(0), Err(ContractError::PriceInUse));
    price.edit("New".to_string(), "Text".to_string());
    assert_eq!((price.name.as_str(), price.description.as_str()), ("New", "Text"));
}

#[test]
fn products_keep_their_price_list_and_default() {
    let mut p = product();
    assert_eq!(p.add_price_id("price_1".to_string()), Ok(()));
    assert_eq!(p.add_price_id("price_2".to_string()), Ok(()));
    assert_eq!(p.check_delete(0), Err(ContractError::ProductHasPrices));
    let price = one_off(10);
    assert_eq!(p.set_default_price(Some("price_1".to_string()), Some(&price)), Ok(()));
    assert_eq!(p.default_price_id.as_deref(), Some("price_1"));
    p.remove_price_id(&"price_1".to_string());
    assert_eq!(p.price_ids, vec!["price_2".to_string()]);
    assert_eq!(p.default_price_id, None);

    assert_eq!(p.archive(0), Ok(()));
    assert_eq!(p.add_price_id("price_3".to_string()), Err(ContractError::ProductArchivedOrInactive));
    assert_eq!(p.unarchive(), Ok(()));
    assert_eq!(p.unarchive(), Err(ContractError::ProductNotArchived));
}

#[test]
fn active_price_and_product_are_required() {
    let price = one_off(10);
    let p = product();
    assert_eq!(get_active_price_and_product(None, Some(&p)), Err(ContractError::PriceNotFound));
    assert_eq!(get_active_price_and_product(Some(&price), None), Err(ContractError::ProductNotFound));
    let mut archived = product();
    archived.status = CatalogStatus::Archived;
    assert_eq!(get_active_price_and_product(Some(&price), Some(&archived)), Err(ContractError::ProductNotActive));
    assert_eq!(get_active_price_and_product(Some(&price), Some(&p)), Ok(()));
}

#[test]
fn payments_must_attach_exactly_the_price_times_quantity() {
    let price = one_off(10);
    let p = product();
    let v = Validator::new("pool.near".to_string(), 0);
    assert_eq!(check_payment(false, 3, Ok(()), Some(&price), Some(&p), Some(&v), 30), Ok(30));
    assert_eq!(check_payment(false, 3, Ok(()), Some(&price), Some(&p), Some(&v), 29), Err(ContractError::PaymentMismatch));
    assert_eq!(check_payment(true, 3, Ok(()), Some(&price), Some(&p), Some(&v), 30), Err(ContractError::Paused));
    assert_eq!(check_payment(false, 0, Ok(()), Some(&price), Some(&p), Some(&v), 0), Err(ContractError::ZeroQuantity));
    assert_eq!(
        check_payment(false, 1, Err(ContractError::StorageForPurchase), Some(&price), Some(&p), Some(&v), 10),
        Err(ContractError::StorageForPurchase)
    );
    assert_eq!(check_payment(false, 1, Ok(()), Some(&price), Some(&p), None, 10), Err(ContractError::ValidatorNotFound));
    let mut paused_pool = Validator::new("pool.near".to_string(), 0);
    paused_pool.status = ValidatorStatus::Paused;
    assert_eq!(
        check_payment(false, 1, Ok(()), Some(&price), Some(&p), Some(&paused_pool), 10),
        Err(ContractError::ValidatorNotActiveForLock)
    );
    let monthly = Price::new(
        "price_2".to_string(),
        "prod_1".to_string(),
        "Monthly".to_string(),
        String::new(),
        10,
        PriceType::Recurring,
        Some(BillingPeriod::Monthly),
        0,
        None,
    );
    assert_eq!(check_payment(false, 1, Ok(()), Some(&monthly), Some(&p), Some(&v), 10), Err(ContractError::NotOneOffPrice));
    let huge = one_off(u128::MAX);
    assert_eq!(check_payment(false, 2, Ok(()), Some(&huge), Some(&p), Some(&v), 0), Err(ContractError::PaymentOverflow));
}

#[test]
fn a_payment_books_the_purchase_usage_and_revenue() {
    let c = commit_payment(
        "pur_1".to_string(),
        &"buyer.near".to_string(),
        one_off(10),
        product(),
        3,
        30,
        4,
        Some(100),
        None,
        77,
    )
    .unwrap();
    assert_eq!(c.purchase.purchase_id, "pur_1");
    assert_eq!(c.purchase.account_id, "buyer.near");
    assert_eq!((c.purchase.quantity, c.purchase.amount_paid, c.purchase.created_ns), (3, 30, 77));
    assert_eq!((c.price.usage_count, c.product.usage_count, c.user_purchase_count), (1, 1, 5));
    assert_eq!((c.validator_revenue, c.product_revenue), (130, 30));

    let overflow = commit_payment(
        "pur_2".to_string(),
        &"buyer.near".to_string(),
        one_off(10),
        product(),
        1,
        10,
        0,
        Some(u128::MAX),
        None,
        77,
    );
    assert_eq!(overflow.unwrap_err(), ContractError::RevenueOverflow);

    assert_eq!(add_revenue(None, 5, ContractError::RevenueOverflow), Ok(5));
    assert_eq!(add_revenue(Some(u128::MAX), 1, ContractError::ProductRevenueOverflow), Err(ContractError::ProductRevenueOverflow));
    assert_eq!(withdraw_revenue_after_get_owner(Ok(()), Some(9)), Ok(9));
    assert_eq!(withdraw_revenue_after_get_owner(Ok(()), Some(0)), Err(ContractError::NoRevenue));
    assert_eq!(withdraw_revenue_after_get_owner(Err(ContractError::NotOwner), Some(9)), Err(ContractError::NotOwner));
}
