use staking_contract::bootstrap::{
    metadata_matches, price_metadata_update, CanonicalMetadata, JsonDoc, JsonLeaf, JsonNode, LeafEntry,
    MetadataError, NodeEntry,
};
use staking_contract::bootstrap_config::{
    configured_default_holds, decimal_text, default_price_decision, init_json, is_last_product_page,
    is_placeholder_id, mock_pool_has_owner, price_candidate_matches, scan_product_page, sync_price_decision,
    sync_product_decision, validate_config, verify_init_config_matches, verify_price_matches,
    verify_product_matches, CheckError, ConfigErrorKind, InitConfig, MockPoolError, PriceConfig,
    PriceSyncAction, ProductConfig, SyncAction,
};

fn text(v: &str) -> JsonLeaf {
    JsonLeaf::Str(v.to_string())
}

fn object(fields: Vec<(&str, JsonLeaf)>) -> JsonNode {
    JsonNode::Object(
        fields
            .into_iter()
            .map(|(key, value)| LeafEntry { key: key.to_string(), value })
            .collect(),
    )
}

fn record(fields: Vec<(&str, JsonNode)>) -> JsonDoc {
    JsonDoc::Record(
        fields
            .into_iter()
            .map(|(key, value)| NodeEntry { key: key.to_string(), value })
            .collect(),
    )
}

fn leaf(v: JsonLeaf) -> JsonNode {
    JsonNode::Leaf(v)
}

fn canonical_metadata() -> JsonNode {
    object(vec![("max_amount", text("100")), ("farm_reward_rate", JsonLeaf::Null)])
}

fn price_config(name: &str, amount: &str, metadata: Option<JsonNode>) -> PriceConfig {
    PriceConfig {
        price_id: None,
        name: name.to_string(),
        description: String::new(),
        amount: amount.to_string(),
        price_type: "OneOff".to_string(),
        billing_period: None,
        lock_factor_near_months: String::new(),
        metadata,
        set_default: false,
    }
}

fn product_config(prices: Vec<PriceConfig>) -> ProductConfig {
    ProductConfig {
        product_id: None,
        validator_id: "pool.testnet".to_string(),
        owner_account_id: None,
        name: "Product".to_string(),
        description: "Description".to_string(),
        prices,
    }
}

#[test]
fn init_config_verification_compares_configured_fields() {
    let mut init = InitConfig::default();
    init.guardians = vec!["guardian.testnet".to_string()];
    init.min_lock_duration_ns = "10".to_string();
    init.max_lock_duration_ns = "100".to_string();
    init.epoch_unstake_settle_epochs = 7;
    init.min_storage_deposit = "11".to_string();
    init.per_lock_storage_stake = "12".to_string();
    init.per_farm_position_storage_stake = "13".to_string();
    init.per_purchase_storage_stake = "14".to_string();
    init.min_lock_amount = "15".to_string();

    let stored = JsonDoc::Record(init_json("owner.testnet", &init));
    verify_init_config_matches(&stored, "owner.testnet", &init).unwrap();

    let mut entries = init_json("owner.testnet", &init);
    for entry in entries.iter_mut() {
        if entry.key == "min_lock_amount" {
            entry.value = leaf(text("16"));
        }
    }
    let mismatched = JsonDoc::Record(entries);
    let err = verify_init_config_matches(&mismatched, "owner.testnet", &init).unwrap_err();
    assert!(err.contains("min_lock_amount"));
}

#[test]
fn metadata_matching_uses_canonical_optional_fields() {
    assert!(metadata_matches(&record(vec![]), None));
    assert!(metadata_matches(&record(vec![("metadata", leaf(JsonLeaf::Null))]), None));

    let expected = canonical_metadata();
    assert!(metadata_matches(
        &record(vec![("metadata", canonical_metadata())]),
        Some(&object(vec![("max_amount", text("100"))]))
    ));
    assert!(metadata_matches(&record(vec![("metadata", canonical_metadata())]), Some(&expected)));
    assert!(!metadata_matches(
        &record(vec![(
            "metadata",
            object(vec![("max_amount", text("101")), ("farm_reward_rate", JsonLeaf::Null)])
        )]),
        Some(&expected)
    ));
    assert!(!metadata_matches(&record(vec![("metadata", expected)]), None));
}

#[test]
fn metadata_validation_rejects_unknown_fields() {
    let products = vec![product_config(vec![price_config(
        "Price",
        "1",
        Some(object(vec![("max_amunt", text("100"))])),
    )])];

    let err = validate_config(&products).unwrap_err();
    assert_eq!(err.product, 0);
    match err.kind {
        ConfigErrorKind::InvalidMetadata(0, MetadataError::UnsupportedField(field)) => {
            assert_eq!(field, "max_amunt")
        },
        other => panic!("unexpected error: {:?}", other),
    }
}

#[test]
fn farm_metadata_update_preserves_existing_reward_rate_when_omitted() {
    let stored = record(vec![(
        "metadata",
        object(vec![("max_amount", text("100")), ("farm_reward_rate", text("5"))]),
    )]);
    let update =
        price_metadata_update(&stored, Some(&object(vec![("max_amount", text("200"))]))).unwrap();

    match update {
        Some(CanonicalMetadata { max_amount: JsonLeaf::Str(max), farm_reward_rate: JsonLeaf::Str(rate) }) => {
            assert_eq!(max, "200");
            assert_eq!(rate, "5");
        },
        other => panic!("unexpected update: {:?}", other),
    }
    assert!(metadata_matches(&stored, Some(&object(vec![("max_amount", text("100"))]))));
}

#[test]
fn metadata_clear_is_rejected_for_existing_metadata() {
    let stored = record(vec![("metadata", canonical_metadata())]);

    let err = price_metadata_update(&stored, None).unwrap_err();
    assert!(matches!(err, MetadataError::CannotClear));
}

#[test]
fn product_and_price_verification_require_active_status() {
    let product = product_config(Vec::new());
    let archived_product = record(vec![
        ("validator_id", leaf(text("pool.testnet"))),
        ("name", leaf(text("Product"))),
        ("description", leaf(text("Description"))),
        ("status", leaf(text("Archived"))),
    ]);
    match verify_product_matches(&archived_product, &product).unwrap_err() {
        CheckError::Field(m) => assert!(m.field.contains("status")),
        other => panic!("unexpected error: {:?}", other),
    }

    let price = PriceConfig {
        price_id: None,
        name: "Price".to_string(),
        description: "Description".to_string(),
        amount: "1".to_string(),
        price_type: "OneOff".to_string(),
        billing_period: None,
        lock_factor_near_months: "0".to_string(),
        metadata: None,
        set_default: false,
    };
    let archived_price = record(vec![
        ("product_id", leaf(text("prod_1"))),
        ("name", leaf(text("Price"))),
        ("description", leaf(text("Description"))),
        ("amount", leaf(text("1"))),
        ("price_type", leaf(text("OneOff"))),
        ("billing_period", leaf(JsonLeaf::Null)),
        ("lock_factor_near_months", leaf(text("0"))),
        ("metadata", leaf(JsonLeaf::Null)),
        ("status", leaf(text("Archived"))),
    ]);
    match verify_price_matches(&archived_price, "prod_1", &price).unwrap_err() {
        CheckError::Field(m) => assert!(m.field.contains("status")),
        other => panic!("unexpected error: {:?}", other),
    }
}

#[test]
fn active_product_and_price_verify_and_missing_ones_are_reported() {
    let product = product_config(Vec::new());
    let active = record(vec![
        ("validator_id", leaf(text("pool.testnet"))),
        ("name", leaf(text("Product"))),
        ("description", leaf(text("Description"))),
        ("status", leaf(text("Active"))),
    ]);
    assert!(verify_product_matches(&active, &product).is_ok());
    assert!(matches!(verify_product_matches(&JsonDoc::Null, &product), Err(CheckError::NotFound)));

    let renamed = record(vec![
        ("validator_id", leaf(text("pool.testnet"))),
        ("name", leaf(text("Other"))),
        ("description", leaf(text("Description"))),
        ("status", leaf(text("Active"))),
    ]);
    match verify_product_matches(&renamed, &product) {
        Err(CheckError::Field(m)) => {
            assert_eq!(m.field, "name");
            assert_eq!(m.expected.as_deref(), Some("Product"));
            assert_eq!(m.actual.as_deref(), Some("Other"));
        },
        other => panic!("unexpected result: {:?}", other),
    }

    let price = price_config("Price", "1", Some(canonical_metadata()));
    let stored_price = record(vec![
        ("product_id", leaf(text("prod_1"))),
        ("name", leaf(text("Price"))),
        ("description", leaf(text(""))),
        ("amount", leaf(text("1"))),
        ("price_type", leaf(text("OneOff"))),
        ("lock_factor_near_months", leaf(text(""))),
        ("metadata", object(vec![("max_amount", text("999"))])),
        ("status", leaf(text("Active"))),
    ]);
    assert!(matches!(
        verify_price_matches(&stored_price, "prod_1", &price),
        Err(CheckError::MetadataMismatch)
    ));
}

#[test]
fn product_sync_decides_between_edit_and_up_to_date() {
    let product = product_config(Vec::new());
    let same = record(vec![
        ("validator_id", leaf(text("pool.testnet"))),
        ("name", leaf(text("Product"))),
        ("description", leaf(text("Description"))),
        ("status", leaf(text("Active"))),
    ]);
    assert!(matches!(sync_product_decision(&same, &product), Ok(SyncAction::UpToDate)));

    let stale = record(vec![
        ("validator_id", leaf(text("pool.testnet"))),
        ("name", leaf(text("Product"))),
        ("description", leaf(text("Old"))),
        ("status", leaf(text("Active"))),
    ]);
    assert!(matches!(sync_product_decision(&stale, &product), Ok(SyncAction::Edit)));

    let elsewhere = record(vec![
        ("validator_id", leaf(text("other.testnet"))),
        ("status", leaf(text("Active"))),
    ]);
    assert!(matches!(sync_product_decision(&elsewhere, &product), Err(CheckError::WrongParent)));
    assert!(matches!(sync_product_decision(&JsonDoc::Null, &product), Err(CheckError::NotFound)));
}

#[test]
fn price_sync_checks_immutable_fields_and_sends_metadata() {
    let mut price = price_config("Price", "1", Some(object(vec![("max_amount", text("200"))])));
    price.description = "New".to_string();
    let stored = record(vec![
        ("product_id", leaf(text("prod_1"))),
        ("name", leaf(text("Price"))),
        ("description", leaf(text("Old"))),
        ("amount", leaf(text("1"))),
        ("price_type", leaf(text("OneOff"))),
        ("lock_factor_near_months", leaf(text(""))),
        ("metadata", object(vec![("max_amount", text("100")), ("farm_reward_rate", text("5"))])),
        ("status", leaf(text("Active"))),
    ]);
    match sync_price_decision(&stored, "prod_1", &price) {
        Ok(PriceSyncAction::Edit(Some(CanonicalMetadata {
            max_amount: JsonLeaf::Str(max),
            farm_reward_rate: JsonLeaf::Str(rate),
        }))) => {
            assert_eq!(max, "200");
            assert_eq!(rate, "5");
        },
        other => panic!("unexpected result: {:?}", other),
    }

    let repriced = price_config("Price", "2", None);
    match sync_price_decision(&stored, "prod_1", &repriced) {
        Err(CheckError::Immutable(m)) => assert_eq!(m.field, "amount"),
        other => panic!("unexpected result: {:?}", other),
    }
    assert!(matches!(sync_price_decision(&stored, "prod_2", &price), Err(CheckError::WrongParent)));

    let cleared = price_config("Price", "1", None);
    assert!(matches!(
        sync_price_decision(&stored, "prod_1", &cleared),
        Err(CheckError::Metadata(MetadataError::CannotClear))
    ));
}

#[test]
fn product_listing_scan_keeps_the_last_active_match() {
    let product = product_config(Vec::new());
    let item = |id: &str, name: &str, status: &str| {
        record(vec![
            ("product_id", leaf(text(id))),
            ("validator_id", leaf(text("pool.testnet"))),
            ("name", leaf(text(name))),
            ("status", leaf(text(status))),
        ])
    };
    let page = vec![item("p1", "Product", "Active"), item("p2", "Other", "Active"), item("p3", "Product", "Active"), item("p4", "Product", "Archived")];
    assert_eq!(scan_product_page(&page, &product, None).as_deref(), Some("p3"));
    assert_eq!(scan_product_page(&Vec::new(), &product, Some("p0".to_string())).as_deref(), Some("p0"));
    assert!(is_last_product_page(0));
    assert!(is_last_product_page(199));
    assert!(!is_last_product_page(200));
}

#[test]
fn price_candidates_placeholders_and_default_prices() {
    let price = price_config("Price", "1", None);
    let candidate = record(vec![
        ("name", leaf(text("Price"))),
        ("amount", leaf(text("1"))),
        ("price_type", leaf(text("OneOff"))),
        ("lock_factor_near_months", leaf(text(""))),
        ("status", leaf(text("Active"))),
    ]);
    assert!(price_candidate_matches(&candidate, &price));
    assert!(!price_candidate_matches(&candidate, &price_config("Price", "2", None)));

    assert!(is_placeholder_id("<price id for Price>"));
    assert!(!is_placeholder_id("price_1"));
    assert!(!is_placeholder_id(""));

    let product = record(vec![("status", leaf(text("Active"))), ("default_price_id", leaf(text("price_1")))]);
    assert_eq!(default_price_decision(&product, "price_1").unwrap(), true);
    assert_eq!(default_price_decision(&product, "price_2").unwrap(), false);
    let archived = record(vec![("status", leaf(text("Archived")))]);
    assert_eq!(default_price_decision(&archived, "price_1").unwrap_err().field, "status");

    assert!(configured_default_holds(&product, "price_1", true));
    assert!(!configured_default_holds(&product, "price_2", true));
    assert!(configured_default_holds(&product, "price_2", false));
}

#[test]
fn mock_pool_owner_is_read_from_its_view() {
    let owner = text("owner.testnet");
    assert!(matches!(mock_pool_has_owner(Ok(&owner), "owner.testnet"), Ok(true)));
    match mock_pool_has_owner(Ok(&text("someone.testnet")), "owner.testnet") {
        Err(MockPoolError::OtherOwner(o)) => assert_eq!(o, "someone.testnet"),
        other => panic!("unexpected result: {:?}", other),
    }
    assert!(matches!(
        mock_pool_has_owner(Ok(&JsonLeaf::Null), "owner.testnet"),
        Err(MockPoolError::UnexpectedValue)
    ));
    assert!(matches!(
        mock_pool_has_owner(Err("CodeDoesNotExist { account_id: \"pool.testnet\" }"), "owner.testnet"),
        Ok(false)
    ));
    assert!(matches!(mock_pool_has_owner(Err("timeout"), "owner.testnet"), Err(MockPoolError::ViewFailed)));
}

#[test]
fn configuration_allows_at_most_one_default_price() {
    let mut first = price_config("A", "1", None);
    first.set_default = true;
    let mut second = price_config("B", "1", None);
    second.set_default = true;
    let products = vec![product_config(vec![price_config("C", "1", None)]), product_config(vec![first, second])];
    let err = validate_config(&products).unwrap_err();
    assert_eq!(err.product, 1);
    assert!(matches!(err.kind, ConfigErrorKind::TooManyDefaults(2)));
    assert!(validate_config(&vec![product_config(vec![price_config("C", "1", Some(canonical_metadata()))])]).is_ok());
}

#[test]
fn init_defaults_and_decimal_numbers() {
    let init = InitConfig::default();
    assert!(init.guardians.is_empty());
    assert_eq!(init.min_lock_duration_ns, "1");
    assert_eq!(init.max_lock_duration_ns, "63072000000000000");
    assert_eq!(init.epoch_unstake_settle_epochs, 4);
    assert_eq!(init.per_lock_storage_stake, "0");
    assert_eq!(init.min_lock_amount, "1000000000000000000000000");

    assert_eq!(decimal_text(0), "0");
    assert_eq!(decimal_text(7), "7");
    assert_eq!(decimal_text(1234567890), "1234567890");
    assert_eq!(decimal_text(u64::MAX), "18446744073709551615");

    let entries = init_json("owner.testnet", &init);
    assert_eq!(entries.len(), 11);
    assert_eq!(entries[0].key, "epoch_unstake_settle_epochs");
    assert!(matches!(&entries[0].value, JsonNode::Leaf(JsonLeaf::Number(n)) if n == "4"));
    assert!(matches!(&entries[10].value, JsonNode::Leaf(JsonLeaf::Null)));
    assert_eq!(verify_init_config_matches(&JsonDoc::Null, "owner.testnet", &init).unwrap_err(), "epoch_unstake_settle_epochs");
}
