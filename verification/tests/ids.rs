use staking_contract::ids::{next_lock_id, next_price_id, next_purchase_id, next_subscription_id};
use staking_contract::ids::{next_product_id, next_unique_generated_id, PROD_SUFFIX_LEN, UNIQUE_ID_ATTEMPTS};

#[test]
fn unique_ids_skip_taken_ones_and_give_up_after_the_attempts() {
    let who = "alice.near".to_string();
    let mut probe = 5u64;
    let first = next_product_id(&mut probe, 10, 20, &who);
    let second = next_product_id(&mut probe, 10, 20, &who);

    let mut nonce = 5u64;
    let got = next_unique_generated_id("prod", PROD_SUFFIX_LEN, &mut nonce, 10, 20, &who, |s: &String| *s == first);
    assert_eq!(got, Some(second));
    assert_eq!(nonce, 7);

    let mut free = 5u64;
    let got_first = next_unique_generated_id("prod", PROD_SUFFIX_LEN, &mut free, 10, 20, &who, |_: &String| false);
    assert_eq!(got_first, Some(first));
    assert_eq!(free, 6);

    let mut full = 5u64;
    assert_eq!(next_unique_generated_id("prod", PROD_SUFFIX_LEN, &mut full, 10, 20, &who, |_: &String| true), None);
    assert_eq!(full, 5 + UNIQUE_ID_ATTEMPTS);
}

#[test]
fn generated_ids_have_their_prefix_and_fixed_length() {
    let who = "alice.near".to_string();
    let mut nonce = u64::MAX;
    let product = next_product_id(&mut nonce, 1, 2, &who);
    assert_eq!(nonce, u64::MAX);
    let price = next_price_id(&mut nonce, 1, 2, &who);
    let sub = next_subscription_id(&mut nonce, 1, 2, &who);
    let lock = next_lock_id(&mut nonce, 1, 2, &who);
    let pay = next_purchase_id(&mut nonce, 1, 2, &who);
    for (id, prefix, len) in [(product, "prod_", 19), (price, "price_", 30), (sub, "sub_", 21), (lock, "lock_", 22), (pay, "pay_", 21)] {
        assert!(id.starts_with(prefix));
        assert_eq!(id.len(), len);
        assert!(id[prefix.len()..].bytes().all(|b| b.is_ascii_alphanumeric()));
    }
}
