//! The bootstrap configuration and the checks it runs on viewed records: whether a record matches
//! its configured product or price, what syncing a configured id must do, and which listed
//! record a configured product or price is.

use vstd::prelude::*;
use vstd::string::StrSliceExecFns;
use crate::cli::{
    chars_to_string, default_epoch_unstake_settle_epochs, default_max_lock_duration_ns,
    default_min_lock_amount, default_min_lock_duration_ns, default_min_storage_deposit,
    default_zero_amount, is_missing_contract_view_error, spec_ascii_lower, spec_missing_contract_text};
use crate::bootstrap::{
    assert_active_status, assert_optional_string_field, assert_string_field, metadata_matches,
    price_metadata_update, spec_canon_eq, spec_metadata_refusal, spec_metadata_matches, spec_metadata_update,
    spec_str_field, str_field, str_eq, copy_strings, doc_field, spec_doc_field, spec_node_field, NodeEntry, canonical_metadata_value, spec_canonical_ok, CanonicalMetadata, JsonLeaf, FieldMismatch, JsonDoc, JsonNode, MetadataError,
};

verus! {

/// A price as the bootstrap configuration describes it.
#[derive(Debug)]
pub struct PriceConfig {
    pub price_id: Option<String>,
    pub name: String,
    pub description: String,
    pub amount: String,
    pub price_type: String,
    pub billing_period: Option<String>,
    pub lock_factor_near_months: String,
    pub metadata: Option<JsonNode>,
    pub set_default: bool,
}

/// A product as the bootstrap configuration describes it.
#[derive(Debug)]
pub struct ProductConfig {
    pub product_id: Option<String>,
    pub validator_id: String,
    pub owner_account_id: Option<String>,
    pub name: String,
    pub description: String,
    pub prices: Vec<PriceConfig>,
}

/// Why a viewed record does not fit its configuration.
#[derive(Debug)]
pub enum CheckError {
    /// The configured id names no record.
    NotFound,
    /// The record belongs to another validator (a product) or product (a price).
    WrongParent,
    /// A string field differs from the configuration.
    Field(FieldMismatch),
    /// An immutable price field differs; an edit cannot change it.
    Immutable(FieldMismatch),
    /// The stored price metadata differs from the configuration.
    MetadataMismatch,
    /// The metadata cannot be compared or sent.
    Metadata(MetadataError),
}

pub open spec fn spec_str_is(doc: JsonDoc, key: Seq<char>, v: Seq<char>) -> bool {
    spec_str_field(doc, key) == Some(v)
}

pub open spec fn spec_opt_view(o: Option<String>) -> Option<Seq<char>> {
    match o {
        Some(s) => Some(s@),
        None => None,
    }
}

fn opt_str(o: &Option<String>) -> (r: Option<&str>)
    ensures
        match r {
            Some(s) => spec_opt_view(*o) == Some(s@),
            None => o is None,
        },
{
    match o {
        Some(s) => Some(s.as_str()),
        None => None,
    }
}

/// The first field of a viewed product that differs from the configuration.
pub open spec fn spec_product_mismatch(doc: JsonDoc, p: ProductConfig) -> Option<Seq<char>> {
    if !spec_str_is(doc, "validator_id"@, p.validator_id@) {
        Some("validator_id"@)
    } else if !spec_str_is(doc, "name"@, p.name@) {
        Some("name"@)
    } else if !spec_str_is(doc, "description"@, p.description@) {
        Some("description"@)
    } else if !spec_str_is(doc, "status"@, "Active"@) {
        Some("status"@)
    } else {
        None
    }
}

fn field_err(r: Result<(), FieldMismatch>) -> (out: Result<(), CheckError>)
    ensures
        r is Ok <==> out is Ok,
        r matches Err(m) ==> (out matches Err(CheckError::Field(n)) && n.field@ == m.field@),
{
    match r {
        Ok(()) => Ok(()),
        Err(m) => Err(CheckError::Field(m)),
    }
}

/// A viewed product (`Null` when the id names none) matches its configuration.
pub fn verify_product_matches(stored: &JsonDoc, product: &ProductConfig) -> (r: Result<(), CheckError>)
    ensures
        stored is Null ==> r matches Err(CheckError::NotFound),
        !(stored is Null) ==> match spec_product_mismatch(*stored, *product) {
            None => r is Ok,
            Some(f) => r matches Err(CheckError::Field(m)) && m.field@ == f,
        },
{
    if let JsonDoc::Null = stored {
        return Err(CheckError::NotFound);
    }
    field_err(assert_string_field(stored, "validator_id", product.validator_id.as_str()))?;
    field_err(assert_string_field(stored, "name", product.name.as_str()))?;
    field_err(assert_string_field(stored, "description", product.description.as_str()))?;
    field_err(assert_active_status(stored))?;
    Ok(())
}

/// The first string field of a viewed price, up to `lock_factor_near_months`, that differs from
/// the configuration.
pub open spec fn spec_price_field_mismatch(doc: JsonDoc, product_id: Seq<char>, p: PriceConfig) -> Option<
    Seq<char>,
> {
    if !spec_str_is(doc, "product_id"@, product_id) {
        Some("product_id"@)
    } else if !spec_str_is(doc, "name"@, p.name@) {
        Some("name"@)
    } else if !spec_str_is(doc, "description"@, p.description@) {
        Some("description"@)
    } else if !spec_str_is(doc, "amount"@, p.amount@) {
        Some("amount"@)
    } else if !spec_str_is(doc, "price_type"@, p.price_type@) {
        Some("price_type"@)
    } else if spec_str_field(doc, "billing_period"@) != spec_opt_view(p.billing_period) {
        Some("billing_period"@)
    } else if !spec_str_is(doc, "lock_factor_near_months"@, p.lock_factor_near_months@) {
        Some("lock_factor_near_months"@)
    } else {
        None
    }
}

/// A viewed price (`Null` when the id names none) matches its configuration under `product_id`.
pub fn verify_price_matches(stored: &JsonDoc, product_id: &str, price: &PriceConfig) -> (r: Result<
    (),
    CheckError,
>)
    ensures
        stored is Null ==> r matches Err(CheckError::NotFound),
        !(stored is Null) ==> match spec_price_field_mismatch(*stored, product_id@, *price) {
            Some(f) => r matches Err(CheckError::Field(m)) && m.field@ == f,
            None => if !spec_metadata_matches(*stored, price.metadata) {
                r matches Err(CheckError::MetadataMismatch)
            } else if !spec_str_is(*stored, "status"@, "Active"@) {
                r matches Err(CheckError::Field(m)) && m.field@ == "status"@
            } else {
                r is Ok
            },
        },
{
    if let JsonDoc::Null = stored {
        return Err(CheckError::NotFound);
    }
    field_err(assert_string_field(stored, "product_id", product_id))?;
    field_err(assert_string_field(stored, "name", price.name.as_str()))?;
    field_err(assert_string_field(stored, "description", price.description.as_str()))?;
    field_err(assert_string_field(stored, "amount", price.amount.as_str()))?;
    field_err(assert_string_field(stored, "price_type", price.price_type.as_str()))?;
    field_err(assert_optional_string_field(stored, "billing_period", opt_str(&price.billing_period)))?;
    field_err(
        assert_string_field(stored, "lock_factor_near_months", price.lock_factor_near_months.as_str()),
    )?;
    let expected = match &price.metadata {
        Some(m) => Some(m),
        None => None,
    };
    if !metadata_matches(stored, expected) {
        return Err(CheckError::MetadataMismatch);
    }
    field_err(assert_active_status(stored))?;
    Ok(())
}

/// What syncing a configured id must do.
#[derive(Debug)]
pub enum SyncAction {
    /// The record already holds the configured text.
    UpToDate,
    /// Send an edit.
    Edit,
}

/// The decision of syncing a product by its configured id: the record must exist, belong to the
/// configured validator and be active; it is edited unless name and description already match.
pub fn sync_product_decision(stored: &JsonDoc, product: &ProductConfig) -> (r: Result<SyncAction, CheckError>)
    ensures
        stored is Null ==> r matches Err(CheckError::NotFound),
        !(stored is Null) ==> if !spec_str_is(*stored, "validator_id"@, product.validator_id@) {
            r matches Err(CheckError::WrongParent)
        } else if !spec_str_is(*stored, "status"@, "Active"@) {
            r matches Err(CheckError::Field(m)) && m.field@ == "status"@
        } else if spec_str_is(*stored, "name"@, product.name@) && spec_str_is(
            *stored,
            "description"@,
            product.description@,
        ) {
            r matches Ok(SyncAction::UpToDate)
        } else {
            r matches Ok(SyncAction::Edit)
        },
{
    if let JsonDoc::Null = stored {
        return Err(CheckError::NotFound);
    }
    if assert_string_field(stored, "validator_id", product.validator_id.as_str()).is_err() {
        return Err(CheckError::WrongParent);
    }
    field_err(assert_active_status(stored))?;
    if assert_string_field(stored, "name", product.name.as_str()).is_ok() && assert_string_field(
        stored,
        "description",
        product.description.as_str(),
    ).is_ok() {
        Ok(SyncAction::UpToDate)
    } else {
        Ok(SyncAction::Edit)
    }
}

/// The first immutable field of a viewed price that differs from the configuration.
pub open spec fn spec_immutable_mismatch(doc: JsonDoc, p: PriceConfig) -> Option<Seq<char>> {
    if !spec_str_is(doc, "amount"@, p.amount@) {
        Some("amount"@)
    } else if !spec_str_is(doc, "price_type"@, p.price_type@) {
        Some("price_type"@)
    } else if spec_str_field(doc, "billing_period"@) != spec_opt_view(p.billing_period) {
        Some("billing_period"@)
    } else if !spec_str_is(doc, "lock_factor_near_months"@, p.lock_factor_near_months@) {
        Some("lock_factor_near_months"@)
    } else {
        None
    }
}

fn immutable_err(r: Result<(), FieldMismatch>) -> (out: Result<(), CheckError>)
    ensures
        r is Ok <==> out is Ok,
        r matches Err(m) ==> (out matches Err(CheckError::Immutable(n)) && n.field@ == m.field@),
{
    match r {
        Ok(()) => Ok(()),
        Err(m) => Err(CheckError::Immutable(m)),
    }
}

/// What syncing a configured price id must do.
#[derive(Debug)]
pub enum PriceSyncAction {
    UpToDate,
    /// Send an edit with this metadata (`None` for JSON null).
    Edit(Option<CanonicalMetadata>),
}

/// The decision of syncing a price by its configured id: the record must exist, belong to the
/// product and be active, and its immutable fields must already hold the configured values; the
/// metadata to send must be computable; it is edited unless name, description and metadata
/// already match.
pub fn sync_price_decision(stored: &JsonDoc, product_id: &str, price: &PriceConfig) -> (r: Result<
    PriceSyncAction,
    CheckError,
>)
    ensures
        stored is Null ==> r matches Err(CheckError::NotFound),
        !(stored is Null) ==> if !spec_str_is(*stored, "product_id"@, product_id@) {
            r matches Err(CheckError::WrongParent)
        } else if !spec_str_is(*stored, "status"@, "Active"@) {
            r matches Err(CheckError::Field(m)) && m.field@ == "status"@
        } else if spec_immutable_mismatch(*stored, *price) is Some {
            r matches Err(CheckError::Immutable(m)) && Some(m.field@) == spec_immutable_mismatch(
                *stored,
                *price,
            )
        } else {
            match spec_metadata_update(*stored, price.metadata) {
                None => r matches Err(CheckError::Metadata(e)) && !(e is CannotClear),
                Some(Err(())) => r matches Err(CheckError::Metadata(e)) && e is CannotClear,
                Some(Ok(w)) => if spec_str_is(*stored, "name"@, price.name@) && spec_str_is(
                    *stored,
                    "description"@,
                    price.description@,
                ) && spec_metadata_matches(*stored, price.metadata) {
                    r matches Ok(PriceSyncAction::UpToDate)
                } else {
                    r matches Ok(PriceSyncAction::Edit(u)) && spec_canon_eq(u, w)
                },
            }
        },
{
    if let JsonDoc::Null = stored {
        return Err(CheckError::NotFound);
    }
    if assert_string_field(stored, "product_id", product_id).is_err() {
        return Err(CheckError::WrongParent);
    }
    field_err(assert_active_status(stored))?;
    immutable_err(assert_string_field(stored, "amount", price.amount.as_str()))?;
    immutable_err(assert_string_field(stored, "price_type", price.price_type.as_str()))?;
    immutable_err(assert_optional_string_field(stored, "billing_period", opt_str(&price.billing_period)))?;
    immutable_err(
        assert_string_field(stored, "lock_factor_near_months", price.lock_factor_near_months.as_str()),
    )?;
    let expected = match &price.metadata {
        Some(m) => Some(m),
        None => None,
    };
    let update = match price_metadata_update(stored, expected) {
        Ok(u) => u,
        Err(e) => {
            return Err(CheckError::Metadata(e));
        },
    };
    if assert_string_field(stored, "name", price.name.as_str()).is_ok() && assert_string_field(
        stored,
        "description",
        price.description.as_str(),
    ).is_ok() && metadata_matches(stored, expected) {
        Ok(PriceSyncAction::UpToDate)
    } else {
        Ok(PriceSyncAction::Edit(update))
    }
}

/// Products are listed in pages of this many records.
pub const PRODUCT_PAGE_LIMIT: u64 = 200;

/// A page shorter than the limit (or empty) is the last one.
pub fn is_last_product_page(len: usize) -> (r: bool)
    ensures
        r == (len < PRODUCT_PAGE_LIMIT),
{
    (len as u64) < PRODUCT_PAGE_LIMIT
}

/// A listed product is the configured one: same validator and name, and active.
pub open spec fn spec_listed_product_matches(item: JsonDoc, p: ProductConfig) -> bool {
    spec_str_is(item, "validator_id"@, p.validator_id@) && spec_str_is(item, "name"@, p.name@)
        && spec_str_is(item, "status"@, "Active"@)
}

/// The id of the last listed product that is the configured one and carries a string id;
/// `found` when there is none.
pub open spec fn spec_scan_products(items: Seq<JsonDoc>, p: ProductConfig, found: Option<Seq<char>>) -> Option<
    Seq<char>,
>
    decreases items.len(),
{
    if items.len() == 0 {
        found
    } else {
        let before = spec_scan_products(items.drop_last(), p, found);
        let item = items.last();
        if spec_listed_product_matches(item, p) && spec_str_field(item, "product_id"@) is Some {
            spec_str_field(item, "product_id"@)
        } else {
            before
        }
    }
}

fn str_is(doc: &JsonDoc, key: &str, v: &str) -> (r: bool)
    ensures
        r == spec_str_is(*doc, key@, v@),
{
    assert_string_field(doc, key, v).is_ok()
}

/// Scans one page of listed products for the configured product, carrying what earlier pages
/// found; the last match wins.
pub fn scan_product_page(items: &Vec<JsonDoc>, product: &ProductConfig, found: Option<String>) -> (r: Option<
    String,
>)
    ensures
        spec_opt_view(r) == spec_scan_products(items@, *product, spec_opt_view(found)),
{
    let ghost start = spec_opt_view(found);
    let mut found = found;
    let mut i: usize = 0;
    assert(items@.take(0).len() == 0);
    while i < items.len()
        invariant
            i <= items@.len(),
            spec_opt_view(found) == spec_scan_products(items@.take(i as int), *product, start),
        decreases items@.len() - i,
    {
        let item = &items[i];
        proof {
            assert(items@.take(i + 1).drop_last() =~= items@.take(i as int));
            assert(items@.take(i + 1).last() == items@[i as int]);
        }
        if str_is(item, "validator_id", product.validator_id.as_str()) && str_is(item, "name", product.name.as_str())
            && str_is(item, "status", "Active") {
            if let Some(id) = str_field(item, "product_id") {
                found = Some(id.to_owned());
            }
        }
        i = i + 1;
    }
    assert(items@.take(items@.len() as int) =~= items@);
    found
}

/// An id written in place of one not yet known (a dry run) starts with `<`.
pub open spec fn spec_is_placeholder(id: Seq<char>) -> bool {
    id.len() > 0 && id[0] == '<'
}

pub fn is_placeholder_id(id: &str) -> (r: bool)
    ensures
        r == spec_is_placeholder(id@),
{
    id.unicode_len() > 0 && id.get_char(0) == '<'
}

/// A price of the product is the configured one: same name, amount, type and lock factor, and
/// active.
pub open spec fn spec_price_candidate_matches(candidate: JsonDoc, p: PriceConfig) -> bool {
    spec_str_is(candidate, "name"@, p.name@) && spec_str_is(candidate, "amount"@, p.amount@)
        && spec_str_is(candidate, "price_type"@, p.price_type@) && spec_str_is(
        candidate,
        "lock_factor_near_months"@,
        p.lock_factor_near_months@,
    ) && spec_str_is(candidate, "status"@, "Active"@)
}

pub fn price_candidate_matches(candidate: &JsonDoc, price: &PriceConfig) -> (r: bool)
    ensures
        r == spec_price_candidate_matches(*candidate, *price),
{
    str_is(candidate, "name", price.name.as_str()) && str_is(candidate, "amount", price.amount.as_str())
        && str_is(candidate, "price_type", price.price_type.as_str()) && str_is(
        candidate,
        "lock_factor_near_months",
        price.lock_factor_near_months.as_str(),
    ) && str_is(candidate, "status", "Active")
}

/// Whether setting the product's default price is already done (`Ok(true)`) or must be sent
/// (`Ok(false)`); the product must be active.
pub fn default_price_decision(stored_product: &JsonDoc, price_id: &str) -> (r: Result<bool, FieldMismatch>)
    ensures
        !spec_str_is(*stored_product, "status"@, "Active"@) ==> (r matches Err(m) && m.field@
            == "status"@),
        spec_str_is(*stored_product, "status"@, "Active"@) ==> r == Ok::<bool, FieldMismatch>(
            spec_str_is(*stored_product, "default_price_id"@, price_id@),
        ),
{
    assert_active_status(stored_product)?;
    Ok(str_is(stored_product, "default_price_id", price_id))
}

/// A price configured as the default must be the product's default price.
pub fn configured_default_holds(stored_product: &JsonDoc, price_id: &str, set_default: bool) -> (r: bool)
    ensures
        r == (!set_default || spec_str_is(*stored_product, "default_price_id"@, price_id@)),
{
    !set_default || str_is(stored_product, "default_price_id", price_id)
}

/// Why the owner of a mock pool contract does not allow deploying it.
#[derive(Debug)]
pub enum MockPoolError {
    /// The contract is deployed with another owner.
    OtherOwner(String),
    /// The owner view returned something other than a string.
    UnexpectedValue,
    /// The owner view failed for another reason than a missing contract.
    ViewFailed,
}

/// Whether the mock pool is already deployed with `owner` (`Ok(false)`: no contract there yet),
/// from the result of its owner view: the value it returned, or the failure's message.
pub fn mock_pool_has_owner(view: Result<&JsonLeaf, &str>, owner: &str) -> (r: Result<bool, MockPoolError>)
    ensures
        match view {
            Ok(JsonLeaf::Str(s)) => if s@ == owner@ {
                r matches Ok(true)
            } else {
                r matches Err(MockPoolError::OtherOwner(o)) && o@ == s@
            },
            Ok(_) => r matches Err(MockPoolError::UnexpectedValue),
            Err(msg) => if spec_missing_contract_text(msg@.map_values(|c: char| spec_ascii_lower(c))) {
                r matches Ok(false)
            } else {
                r matches Err(MockPoolError::ViewFailed)
            },
        },
{
    match view {
        Ok(JsonLeaf::Str(s)) => {
            if str_eq(s.as_str(), owner) {
                Ok(true)
            } else {
                Err(MockPoolError::OtherOwner(s.clone()))
            }
        },
        Ok(_) => Err(MockPoolError::UnexpectedValue),
        Err(msg) => {
            if is_missing_contract_view_error(msg) {
                Ok(false)
            } else {
                Err(MockPoolError::ViewFailed)
            }
        },
    }
}

/// Number of prices marked as the product default.
pub open spec fn spec_default_prices(prices: Seq<PriceConfig>) -> int
    decreases prices.len(),
{
    if prices.len() == 0 {
        0
    } else {
        spec_default_prices(prices.drop_last()) + if prices.last().set_default {
            1int
        } else {
            0int
        }
    }
}

/// A product's configuration is valid: at most one default price, and every price's metadata
/// is null, absent, or an object of the known fields.
pub open spec fn spec_product_config_ok(p: ProductConfig) -> bool {
    spec_default_prices(p.prices@) <= 1 && forall|j: int|
        0 <= j < p.prices@.len() ==> spec_canonical_ok(#[trigger] p.prices@[j].metadata)
}

/// What is wrong with a product's configuration.
#[derive(Debug)]
pub enum ConfigErrorKind {
    /// More than one price is marked default (the number marked).
    TooManyDefaults(usize),
    /// The metadata of the price at this index is refused.
    InvalidMetadata(usize, MetadataError),
}

/// The first invalid product of the configuration, by index.
#[derive(Debug)]
pub struct ConfigError {
    pub product: usize,
    pub kind: ConfigErrorKind,
}

fn count_defaults(prices: &Vec<PriceConfig>) -> (r: usize)
    ensures
        r == spec_default_prices(prices@),
{
    let mut c: usize = 0;
    let mut i: usize = 0;
    while i < prices.len()
        invariant
            i <= prices@.len(),
            c <= i,
            c == spec_default_prices(prices@.take(i as int)),
        decreases prices@.len() - i,
    {
        proof {
            assert(prices@.take(i + 1).drop_last() =~= prices@.take(i as int));
        }
        if prices[i].set_default {
            c = c + 1;
        }
        i = i + 1;
    }
    assert(prices@.take(prices@.len() as int) =~= prices@);
    c
}

fn check_product_config(p: &ProductConfig) -> (r: Result<(), ConfigErrorKind>)
    ensures
        r is Ok <==> spec_product_config_ok(*p),
        r matches Err(ConfigErrorKind::TooManyDefaults(c)) ==> c == spec_default_prices(p.prices@)
            && c > 1,
        r matches Err(ConfigErrorKind::InvalidMetadata(j, e)) ==> spec_default_prices(p.prices@) <= 1
            && j < p.prices@.len() && !spec_canonical_ok(p.prices@[j as int].metadata) && (forall|k: int|
            0 <= k < j ==> spec_canonical_ok(#[trigger] p.prices@[k].metadata)) && spec_metadata_refusal(
            p.prices@[j as int].metadata,
            e,
        ),
{
    let c = count_defaults(&p.prices);
    if c > 1 {
        return Err(ConfigErrorKind::TooManyDefaults(c));
    }
    let mut j: usize = 0;
    while j < p.prices.len()
        invariant
            j <= p.prices@.len(),
            spec_default_prices(p.prices@) <= 1,
            forall|k: int| 0 <= k < j ==> spec_canonical_ok(#[trigger] p.prices@[k].metadata),
        decreases p.prices@.len() - j,
    {
        let m = match &p.prices[j].metadata {
            Some(m) => Some(m),
            None => None,
        };
        match canonical_metadata_value(m) {
            Ok(_) => {},
            Err(e) => {
                return Err(ConfigErrorKind::InvalidMetadata(j, e));
            },
        }
        j = j + 1;
    }
    Ok(())
}

/// Checks every product of the configuration, stopping at the first invalid one.
pub fn validate_config(products: &Vec<ProductConfig>) -> (r: Result<(), ConfigError>)
    ensures
        r is Ok <==> forall|i: int| 0 <= i < products@.len() ==> spec_product_config_ok(#[trigger] products@[i]),
        r matches Err(e) ==> e.product < products@.len() && !spec_product_config_ok(products@[e.product as int])
            && (forall|i: int| 0 <= i < e.product ==> spec_product_config_ok(#[trigger] products@[i]))
            && match e.kind {
            ConfigErrorKind::TooManyDefaults(c) => c == spec_default_prices(products@[e.product as int].prices@)
                && c > 1,
            ConfigErrorKind::InvalidMetadata(j, cause) => spec_default_prices(
                products@[e.product as int].prices@,
            ) <= 1 && j < products@[e.product as int].prices@.len() && !spec_canonical_ok(
                products@[e.product as int].prices@[j as int].metadata,
            ) && (forall|k: int|
                0 <= k < j ==> spec_canonical_ok(#[trigger] products@[e.product as int].prices@[k].metadata))
                && spec_metadata_refusal(products@[e.product as int].prices@[j as int].metadata, cause),
        },
{
    let mut i: usize = 0;
    while i < products.len()
        invariant
            i <= products@.len(),
            forall|k: int| 0 <= k < i ==> spec_product_config_ok(#[trigger] products@[k]),
        decreases products@.len() - i,
    {
        match check_product_config(&products[i]) {
            Ok(()) => {},
            Err(kind) => {
                return Err(ConfigError { product: i, kind });
            },
        }
        i = i + 1;
    }
    Ok(())
}

/// The configured arguments of the contract's initialisation.
#[derive(Debug)]
pub struct InitConfig {
    pub guardians: Vec<String>,
    pub min_lock_duration_ns: String,
    pub max_lock_duration_ns: String,
    pub epoch_unstake_settle_epochs: u64,
    pub min_storage_deposit: String,
    pub per_lock_storage_stake: String,
    pub per_farm_position_storage_stake: String,
    pub per_purchase_storage_stake: String,
    pub min_lock_amount: String,
}

impl Default for InitConfig {
    /// The configuration defaults: no guardians, a lock duration of one nanosecond to two years,
    /// four epochs to settle, 0.01 NEAR storage deposit, no storage stakes, one NEAR minimum.
    fn default() -> (r: Self)
        ensures
            r.guardians@.len() == 0,
            r.min_lock_duration_ns@ == "1"@,
            r.max_lock_duration_ns@ == "63072000000000000"@,
            r.epoch_unstake_settle_epochs == 4,
            r.min_storage_deposit@ == "10000000000000000000000"@,
            r.per_lock_storage_stake@ == "0"@,
            r.per_farm_position_storage_stake@ == "0"@,
            r.per_purchase_storage_stake@ == "0"@,
            r.min_lock_amount@ == "1000000000000000000000000"@,
    {
        InitConfig {
            guardians: Vec::new(),
            min_lock_duration_ns: default_min_lock_duration_ns(),
            max_lock_duration_ns: default_max_lock_duration_ns(),
            epoch_unstake_settle_epochs: default_epoch_unstake_settle_epochs(),
            min_storage_deposit: default_min_storage_deposit(),
            per_lock_storage_stake: default_zero_amount(),
            per_farm_position_storage_stake: default_zero_amount(),
            per_purchase_storage_stake: default_zero_amount(),
            min_lock_amount: default_min_lock_amount(),
        }
    }
}

pub open spec fn spec_digit(d: int) -> char {
    if d == 0 {
        '0'
    } else if d == 1 {
        '1'
    } else if d == 2 {
        '2'
    } else if d == 3 {
        '3'
    } else if d == 4 {
        '4'
    } else if d == 5 {
        '5'
    } else if d == 6 {
        '6'
    } else if d == 7 {
        '7'
    } else if d == 8 {
        '8'
    } else {
        '9'
    }
}

/// The decimal text of a number, without leading zeros.
pub open spec fn spec_decimal(n: nat) -> Seq<char>
    decreases n,
{
    if n < 10 {
        seq![spec_digit(n as int)]
    } else {
        spec_decimal(n / 10).push(spec_digit((n % 10) as int))
    }
}

fn push_decimal(n: u64, out: &mut Vec<char>)
    ensures
        final(out)@ == old(out)@ + spec_decimal(n as nat),
    decreases n,
{
    if n >= 10 {
        push_decimal(n / 10, out);
    }
    let d = n % 10;
    let c = if d == 0 {
        '0'
    } else if d == 1 {
        '1'
    } else if d == 2 {
        '2'
    } else if d == 3 {
        '3'
    } else if d == 4 {
        '4'
    } else if d == 5 {
        '5'
    } else if d == 6 {
        '6'
    } else if d == 7 {
        '7'
    } else if d == 8 {
        '8'
    } else {
        '9'
    };
    out.push(c);
}

/// The decimal text of a number, as JSON writes it.
pub fn decimal_text(n: u64) -> (r: String)
    ensures
        r@ == spec_decimal(n as nat),
{
    let mut out: Vec<char> = Vec::new();
    push_decimal(n, &mut out);
    assert(out@ =~= spec_decimal(n as nat));
    chars_to_string(out)
}

pub open spec fn spec_entry_str(e: NodeEntry, key: Seq<char>, v: Seq<char>) -> bool {
    e.key@ == key && (e.value matches JsonNode::Leaf(JsonLeaf::Str(x)) && x@ == v)
}

pub open spec fn spec_entry_number(e: NodeEntry, key: Seq<char>, text: Seq<char>) -> bool {
    e.key@ == key && (e.value matches JsonNode::Leaf(JsonLeaf::Number(x)) && x@ == text)
}

pub open spec fn spec_entry_null(e: NodeEntry, key: Seq<char>) -> bool {
    e.key@ == key && e.value == JsonNode::Leaf(JsonLeaf::Null)
}

pub open spec fn spec_strings_eq(x: Seq<String>, v: Seq<String>) -> bool {
    x.len() == v.len() && forall|i: int| 0 <= i < x.len() ==> (#[trigger] x[i])@ == v[i]@
}

pub open spec fn spec_entry_strings(e: NodeEntry, key: Seq<char>, v: Seq<String>) -> bool {
    e.key@ == key && (e.value matches JsonNode::Leaf(JsonLeaf::Strings(x)) && spec_strings_eq(x@, v))
}

/// The initialisation arguments as JSON object fields, in key order.
pub open spec fn spec_init_entries(e: Seq<NodeEntry>, owner: Seq<char>, init: InitConfig) -> bool {
    &&& e.len() == 11
    &&& spec_entry_number(e[0], "epoch_unstake_settle_epochs"@, spec_decimal(init.epoch_unstake_settle_epochs as nat))
        &&& spec_entry_strings(e[1], "guardians"@, init.guardians@)
        &&& spec_entry_str(e[2], "max_lock_duration_ns"@, init.max_lock_duration_ns@)
        &&& spec_entry_str(e[3], "min_lock_amount"@, init.min_lock_amount@)
        &&& spec_entry_str(e[4], "min_lock_duration_ns"@, init.min_lock_duration_ns@)
        &&& spec_entry_str(e[5], "min_storage_deposit"@, init.min_storage_deposit@)
        &&& spec_entry_str(e[6], "owner_account_id"@, owner)
        &&& spec_entry_str(e[7], "per_farm_position_storage_stake"@, init.per_farm_position_storage_stake@)
        &&& spec_entry_str(e[8], "per_lock_storage_stake"@, init.per_lock_storage_stake@)
        &&& spec_entry_str(e[9], "per_purchase_storage_stake"@, init.per_purchase_storage_stake@)
        &&& spec_entry_null(e[10], "proposed_new_owner_account_id"@)
}

/// The initialisation arguments of the contract: owner, no proposed owner, and the configured
/// values, as the fields of a JSON object in key order.
pub fn init_json(owner: &str, init: &InitConfig) -> (r: Vec<NodeEntry>)
    ensures
        spec_init_entries(r@, owner@, *init),
{
    let mut r: Vec<NodeEntry> = Vec::new();
    r.push(NodeEntry { key: "epoch_unstake_settle_epochs".to_owned(), value: JsonNode::Leaf(JsonLeaf::Number(decimal_text(init.epoch_unstake_settle_epochs))) });
    r.push(NodeEntry { key: "guardians".to_owned(), value: JsonNode::Leaf(JsonLeaf::Strings(copy_strings(&init.guardians))) });
    r.push(NodeEntry { key: "max_lock_duration_ns".to_owned(), value: JsonNode::Leaf(JsonLeaf::Str(init.max_lock_duration_ns.clone())) });
    r.push(NodeEntry { key: "min_lock_amount".to_owned(), value: JsonNode::Leaf(JsonLeaf::Str(init.min_lock_amount.clone())) });
    r.push(NodeEntry { key: "min_lock_duration_ns".to_owned(), value: JsonNode::Leaf(JsonLeaf::Str(init.min_lock_duration_ns.clone())) });
    r.push(NodeEntry { key: "min_storage_deposit".to_owned(), value: JsonNode::Leaf(JsonLeaf::Str(init.min_storage_deposit.clone())) });
    r.push(NodeEntry { key: "owner_account_id".to_owned(), value: JsonNode::Leaf(JsonLeaf::Str(owner.to_owned())) });
    r.push(NodeEntry { key: "per_farm_position_storage_stake".to_owned(), value: JsonNode::Leaf(JsonLeaf::Str(init.per_farm_position_storage_stake.clone())) });
    r.push(NodeEntry { key: "per_lock_storage_stake".to_owned(), value: JsonNode::Leaf(JsonLeaf::Str(init.per_lock_storage_stake.clone())) });
    r.push(NodeEntry { key: "per_purchase_storage_stake".to_owned(), value: JsonNode::Leaf(JsonLeaf::Str(init.per_purchase_storage_stake.clone())) });
    r.push(NodeEntry { key: "proposed_new_owner_account_id".to_owned(), value: JsonNode::Leaf(JsonLeaf::Null) });
    r
}

pub open spec fn spec_field_number(doc: JsonDoc, key: Seq<char>, text: Seq<char>) -> bool {
    spec_doc_field(doc, key) matches Some(JsonNode::Leaf(JsonLeaf::Number(x))) && x@ == text
}

pub open spec fn spec_field_strings(doc: JsonDoc, key: Seq<char>, v: Seq<String>) -> bool {
    spec_doc_field(doc, key) matches Some(JsonNode::Leaf(JsonLeaf::Strings(x))) && spec_strings_eq(x@, v)
}

/// A missing field reads as null.
pub open spec fn spec_field_null(doc: JsonDoc, key: Seq<char>) -> bool {
    spec_doc_field(doc, key) is None || spec_doc_field(doc, key) == Some(JsonNode::Leaf(JsonLeaf::Null))
}

fn field_number_is(doc: &JsonDoc, key: &str, text: &str) -> (r: bool)
    ensures
        r == spec_field_number(*doc, key@, text@),
{
    match doc_field(doc, key) {
        Some(JsonNode::Leaf(JsonLeaf::Number(x))) => str_eq(x.as_str(), text),
        _ => false,
    }
}

fn strings_eq(x: &Vec<String>, v: &Vec<String>) -> (r: bool)
    ensures
        r == spec_strings_eq(x@, v@),
{
    if x.len() != v.len() {
        return false;
    }
    let mut i: usize = 0;
    while i < x.len()
        invariant
            x@.len() == v@.len(),
            i <= x@.len(),
            forall|k: int| 0 <= k < i ==> (#[trigger] x@[k])@ == v@[k]@,
        decreases x@.len() - i,
    {
        if !str_eq(x[i].as_str(), v[i].as_str()) {
            return false;
        }
        i = i + 1;
    }
    true
}

fn field_strings_is(doc: &JsonDoc, key: &str, v: &Vec<String>) -> (r: bool)
    ensures
        r == spec_field_strings(*doc, key@, v@),
{
    match doc_field(doc, key) {
        Some(JsonNode::Leaf(JsonLeaf::Strings(x))) => strings_eq(x, v),
        _ => false,
    }
}

fn field_is_null(doc: &JsonDoc, key: &str) -> (r: bool)
    ensures
        r == spec_field_null(*doc, key@),
{
    match doc_field(doc, key) {
        None => true,
        Some(JsonNode::Leaf(JsonLeaf::Null)) => true,
        _ => false,
    }
}

/// The first field, in key order, of the stored configuration that differs from the
/// initialisation arguments.
pub open spec fn spec_init_mismatch(doc: JsonDoc, owner: Seq<char>, init: InitConfig) -> Option<Seq<char>> {
    if !spec_field_number(doc, "epoch_unstake_settle_epochs"@, spec_decimal(init.epoch_unstake_settle_epochs as nat)) {
        Some("epoch_unstake_settle_epochs"@)
    } else if !spec_field_strings(doc, "guardians"@, init.guardians@) {
        Some("guardians"@)
    } else if !spec_str_is(doc, "max_lock_duration_ns"@, init.max_lock_duration_ns@) {
        Some("max_lock_duration_ns"@)
    } else if !spec_str_is(doc, "min_lock_amount"@, init.min_lock_amount@) {
        Some("min_lock_amount"@)
    } else if !spec_str_is(doc, "min_lock_duration_ns"@, init.min_lock_duration_ns@) {
        Some("min_lock_duration_ns"@)
    } else if !spec_str_is(doc, "min_storage_deposit"@, init.min_storage_deposit@) {
        Some("min_storage_deposit"@)
    } else if !spec_str_is(doc, "owner_account_id"@, owner) {
        Some("owner_account_id"@)
    } else if !spec_str_is(doc, "per_farm_position_storage_stake"@, init.per_farm_position_storage_stake@) {
        Some("per_farm_position_storage_stake"@)
    } else if !spec_str_is(doc, "per_lock_storage_stake"@, init.per_lock_storage_stake@) {
        Some("per_lock_storage_stake"@)
    } else if !spec_str_is(doc, "per_purchase_storage_stake"@, init.per_purchase_storage_stake@) {
        Some("per_purchase_storage_stake"@)
    } else if !spec_field_null(doc, "proposed_new_owner_account_id"@) {
        Some("proposed_new_owner_account_id"@)
    } else {
        None
    }
}

/// The stored contract configuration holds the initialisation arguments; the error names the
/// first field, in key order, that differs.
pub fn verify_init_config_matches(stored: &JsonDoc, owner: &str, init: &InitConfig) -> (r: Result<(), String>)
    ensures
        match spec_init_mismatch(*stored, owner@, *init) {
            None => r is Ok,
            Some(f) => r matches Err(e) && e@ == f,
        },
{
    if !field_number_is(stored, "epoch_unstake_settle_epochs", decimal_text(init.epoch_unstake_settle_epochs).as_str()) {
        return Err("epoch_unstake_settle_epochs".to_owned());
    }
    if !field_strings_is(stored, "guardians", &init.guardians) {
        return Err("guardians".to_owned());
    }
    if !str_is(stored, "max_lock_duration_ns", init.max_lock_duration_ns.as_str()) {
        return Err("max_lock_duration_ns".to_owned());
    }
    if !str_is(stored, "min_lock_amount", init.min_lock_amount.as_str()) {
        return Err("min_lock_amount".to_owned());
    }
    if !str_is(stored, "min_lock_duration_ns", init.min_lock_duration_ns.as_str()) {
        return Err("min_lock_duration_ns".to_owned());
    }
    if !str_is(stored, "min_storage_deposit", init.min_storage_deposit.as_str()) {
        return Err("min_storage_deposit".to_owned());
    }
    if !str_is(stored, "owner_account_id", owner) {
        return Err("owner_account_id".to_owned());
    }
    if !str_is(stored, "per_farm_position_storage_stake", init.per_farm_position_storage_stake.as_str()) {
        return Err("per_farm_position_storage_stake".to_owned());
    }
    if !str_is(stored, "per_lock_storage_stake", init.per_lock_storage_stake.as_str()) {
        return Err("per_lock_storage_stake".to_owned());
    }
    if !str_is(stored, "per_purchase_storage_stake", init.per_purchase_storage_stake.as_str()) {
        return Err("per_purchase_storage_stake".to_owned());
    }
    if !field_is_null(stored, "proposed_new_owner_account_id") {
        return Err("proposed_new_owner_account_id".to_owned());
    }
    Ok(())
}

proof fn lemma_node_field_at(entries: Seq<NodeEntry>, i: int)
    requires
        0 <= i < entries.len(),
        forall|j: int| 0 <= j < i ==> (#[trigger] entries[j]).key@ != entries[i].key@,
    ensures
        spec_node_field(entries, entries[i].key@) == Some(entries[i].value),
    decreases i,
{
    if i > 0 {
        let rest = entries.drop_first();
        assert forall|j: int| 0 <= j < i - 1 implies (#[trigger] rest[j]).key@ != rest[i - 1].key@ by {
            assert(rest[j] == entries[j + 1]);
        }
        lemma_node_field_at(rest, i - 1);
        assert(entries[0].key@ != entries[i].key@);
    }
}

/// The initialisation arguments, stored as they were sent, pass the stored configuration check.
pub proof fn lemma_init_json_verifies(entries: Vec<NodeEntry>, owner: Seq<char>, init: InitConfig)
    requires
        spec_init_entries(entries@, owner, init),
    ensures
        spec_init_mismatch(JsonDoc::Record(entries), owner, init) is None,
{
    let e = entries@;
    assert("max_lock_duration_ns"@[1] != "min_lock_duration_ns"@[1]) by {
        reveal_strlit("max_lock_duration_ns");
        reveal_strlit("min_lock_duration_ns");
    }
    reveal_strlit("epoch_unstake_settle_epochs");
    reveal_strlit("guardians");
    reveal_strlit("max_lock_duration_ns");
    reveal_strlit("min_lock_amount");
    reveal_strlit("min_lock_duration_ns");
    reveal_strlit("min_storage_deposit");
    reveal_strlit("owner_account_id");
    reveal_strlit("per_farm_position_storage_stake");
    reveal_strlit("per_lock_storage_stake");
    reveal_strlit("per_purchase_storage_stake");
    reveal_strlit("proposed_new_owner_account_id");
    assert(e[0].key@ == "epoch_unstake_settle_epochs"@ && "epoch_unstake_settle_epochs"@.len() == 27);
    assert(e[1].key@ == "guardians"@ && "guardians"@.len() == 9);
    assert(e[2].key@ == "max_lock_duration_ns"@ && "max_lock_duration_ns"@.len() == 20);
    assert(e[3].key@ == "min_lock_amount"@ && "min_lock_amount"@.len() == 15);
    assert(e[4].key@ == "min_lock_duration_ns"@ && "min_lock_duration_ns"@.len() == 20);
    assert(e[5].key@ == "min_storage_deposit"@ && "min_storage_deposit"@.len() == 19);
    assert(e[6].key@ == "owner_account_id"@ && "owner_account_id"@.len() == 16);
    assert(e[7].key@ == "per_farm_position_storage_stake"@ && "per_farm_position_storage_stake"@.len() == 31);
    assert(e[8].key@ == "per_lock_storage_stake"@ && "per_lock_storage_stake"@.len() == 22);
    assert(e[9].key@ == "per_purchase_storage_stake"@ && "per_purchase_storage_stake"@.len() == 26);
    assert(e[10].key@ == "proposed_new_owner_account_id"@ && "proposed_new_owner_account_id"@.len() == 29);
    lemma_node_field_at(e, 0);
    assert forall|j: int| 0 <= j < 1 implies (#[trigger] e[j]).key@ != e[1].key@ by {
        if j == 0 {}
    }
    lemma_node_field_at(e, 1);
    assert forall|j: int| 0 <= j < 2 implies (#[trigger] e[j]).key@ != e[2].key@ by {
        if j == 0 {} else if j == 1 {}
    }
    lemma_node_field_at(e, 2);
    assert forall|j: int| 0 <= j < 3 implies (#[trigger] e[j]).key@ != e[3].key@ by {
        if j == 0 {} else if j == 1 {} else if j == 2 {}
    }
    lemma_node_field_at(e, 3);
    assert forall|j: int| 0 <= j < 4 implies (#[trigger] e[j]).key@ != e[4].key@ by {
        if j == 0 {} else if j == 1 {} else if j == 2 {} else if j == 3 {}
    }
    lemma_node_field_at(e, 4);
    assert forall|j: int| 0 <= j < 5 implies (#[trigger] e[j]).key@ != e[5].key@ by {
        if j == 0 {} else if j == 1 {} else if j == 2 {} else if j == 3 {} else if j == 4 {}
    }
    lemma_node_field_at(e, 5);
    assert forall|j: int| 0 <= j < 6 implies (#[trigger] e[j]).key@ != e[6].key@ by {
        if j == 0 {} else if j == 1 {} else if j == 2 {} else if j == 3 {} else if j == 4 {} else if j == 5 {}
    }
    lemma_node_field_at(e, 6);
    assert forall|j: int| 0 <= j < 7 implies (#[trigger] e[j]).key@ != e[7].key@ by {
        if j == 0 {} else if j == 1 {} else if j == 2 {} else if j == 3 {} else if j == 4 {} else if j == 5 {} else if j == 6 {}
    }
    lemma_node_field_at(e, 7);
    assert forall|j: int| 0 <= j < 8 implies (#[trigger] e[j]).key@ != e[8].key@ by {
        if j == 0 {} else if j == 1 {} else if j == 2 {} else if j == 3 {} else if j == 4 {} else if j == 5 {} else if j == 6 {} else if j == 7 {}
    }
    lemma_node_field_at(e, 8);
    assert forall|j: int| 0 <= j < 9 implies (#[trigger] e[j]).key@ != e[9].key@ by {
        if j == 0 {} else if j == 1 {} else if j == 2 {} else if j == 3 {} else if j == 4 {} else if j == 5 {} else if j == 6 {} else if j == 7 {} else if j == 8 {}
    }
    lemma_node_field_at(e, 9);
    assert forall|j: int| 0 <= j < 10 implies (#[trigger] e[j]).key@ != e[10].key@ by {
        if j == 0 {} else if j == 1 {} else if j == 2 {} else if j == 3 {} else if j == 4 {} else if j == 5 {} else if j == 6 {} else if j == 7 {} else if j == 8 {} else if j == 9 {}
    }
    lemma_node_field_at(e, 10);
}

} // verus!
