//! Oracle-priced locks: the relayed price data (Burrow `PriceData` shape), its freshness, and the
//! checks an oracle call runs before the lock.

use crate::errors::ContractError;
use crate::types::{opt_ref, AccountId, CatalogStatus, Config, Price, PriceId, Product, Validator, ValidatorStatus};
use vstd::prelude::*;
use vstd::string::StrSliceExecFns;

verus! {

/// A price row: a decimal multiplier string and its decimals.
#[derive(Debug)]
pub struct OracleBurrowPrice {
    pub multiplier: String,
    pub decimals: u8,
}

#[derive(Debug)]
pub struct OracleAssetOptionalPrice {
    pub asset_id: String,
    pub price: Option<OracleBurrowPrice>,
}

/// Oracle quote: block time of the quote (nanoseconds) and its price rows.
#[derive(Debug)]
pub struct OraclePriceData {
    pub timestamp: u64,
    /// Carried for compatibility; only the future and age checks apply.
    pub recency_duration_sec: u32,
    pub prices: Vec<OracleAssetOptionalPrice>,
}

/// The lock intent the relay forwards.
#[derive(Debug)]
pub struct LockForProductUsdMsg {
    pub price_id: PriceId,
    pub lock_duration_ns: u64,
}

/// A quote must not come from the future nor be older than `max_age_ns`.
pub fn validate_oracle_price_data(data: &OraclePriceData, now_ns: u64, max_age_ns: u64) -> (r: Result<
    (),
    ContractError,
>)
    ensures
        r == if data.timestamp > now_ns {
            Err(ContractError::OracleFromFuture)
        } else if now_ns - data.timestamp > max_age_ns {
            Err(ContractError::OracleStale)
        } else {
            Ok(())
        },
{
    if data.timestamp > now_ns {
        return Err(ContractError::OracleFromFuture);
    }
    if now_ns - data.timestamp > max_age_ns {
        return Err(ContractError::OracleStale);
    }
    Ok(())
}

/// Index of the first row that carries a price.
pub open spec fn spec_first_priced(rows: Seq<OracleAssetOptionalPrice>) -> Option<int> {
    if exists|i: int| 0 <= i < rows.len() && (#[trigger] rows[i]).price is Some {
        Some(
            choose|i: int|
                0 <= i < rows.len() && (#[trigger] rows[i]).price is Some && forall|j: int|
                    0 <= j < i ==> (#[trigger] rows[j]).price is None,
        )
    } else {
        None
    }
}

/// The first price row carrying a price.
pub fn first_oracle_price(data: &OraclePriceData) -> (r: Option<&OracleBurrowPrice>)
    ensures
        r is None <==> forall|i: int| 0 <= i < data.prices@.len() ==> (#[trigger] data.prices@[i]).price is None,
        r matches Some(p) ==> exists|i: int|
            0 <= i < data.prices@.len() && (#[trigger] data.prices@[i]).price == Some(*p) && forall|j: int|
                0 <= j < i ==> (#[trigger] data.prices@[j]).price is None,
{
    let mut i: usize = 0;
    while i < data.prices.len()
        invariant
            i <= data.prices@.len(),
            forall|j: int| 0 <= j < i ==> (#[trigger] data.prices@[j]).price is None,
        decreases data.prices@.len() - i,
    {
        match &data.prices[i].price {
            Some(p) => {
                return Some(p);
            },
            None => {},
        }
        i = i + 1;
    }
    None
}

/// Value of the decimal digits `s`.
pub open spec fn spec_decimal(s: Seq<char>) -> int
    decreases s.len(),
{
    if s.len() == 0 {
        0
    } else {
        spec_decimal(s.drop_last()) * 10 + (s.last() as int - '0' as int)
    }
}

pub open spec fn spec_is_digit(c: char) -> bool {
    '0' <= c && c <= '9'
}

/// The text after an optional leading `+`.
pub open spec fn spec_unsigned_part(s: Seq<char>) -> Seq<char> {
    if s.len() > 0 && s[0] == '+' {
        s.drop_first()
    } else {
        s
    }
}

/// One or more decimal digits whose value fits a `u128`.
pub open spec fn spec_parse_digits(digits: Seq<char>) -> Option<u128> {
    if digits.len() == 0 {
        None
    } else if !(forall|i: int| 0 <= i < digits.len() ==> spec_is_digit(#[trigger] digits[i])) {
        None
    } else if spec_decimal(digits) > u128::MAX {
        None
    } else {
        Some(spec_decimal(digits) as u128)
    }
}

/// A `u128` written in decimal: an optional `+`, then one or more digits, the value fitting.
pub open spec fn spec_parse_u128(s: Seq<char>) -> Option<u128> {
    spec_parse_digits(spec_unsigned_part(s))
}

/// Parses an oracle multiplier as a decimal `u128`.
pub fn parse_u128(s: &str) -> (r: Option<u128>)
    ensures
        r == spec_parse_u128(s@),
{
    let n = s.unicode_len();
    let start: usize = if n > 0 && s.get_char(0) == '+' {
        1
    } else {
        0
    };
    let ghost digits = spec_unsigned_part(s@);
    assert(digits =~= s@.subrange(start as int, n as int));
    if start == n {
        return None;
    }
    let mut acc: u128 = 0;
    let mut i: usize = start;
    let mut overflow = false;
    while i < n
        invariant
            n == s@.len(),
            start <= i <= n,
            digits == s@.subrange(start as int, n as int),
            digits == spec_unsigned_part(s@),
            start <= 1,
            forall|k: int| start <= k < i ==> spec_is_digit(#[trigger] s@[k]),
            !overflow ==> acc == spec_decimal(s@.subrange(start as int, i as int)),
            overflow ==> spec_decimal(s@.subrange(start as int, i as int)) > u128::MAX,
            spec_decimal(s@.subrange(start as int, i as int)) >= 0,
        decreases n - i,
    {
        let c = s.get_char(i);
        if !('0' <= c && c <= '9') {
            proof {
                assert(digits[i - start] == c);
                assert(!spec_is_digit(digits[i - start]));
            }
            return None;
        }
        let d = (c as u32 - '0' as u32) as u128;
        proof {
            assert(s@.subrange(start as int, i + 1).drop_last() =~= s@.subrange(start as int, i as int));
            assert(s@.subrange(start as int, i + 1).last() == c);
        }
        if !overflow {
            match acc.checked_mul(10) {
                Some(x) => match x.checked_add(d) {
                    Some(y) => {
                        acc = y;
                    },
                    None => {
                        overflow = true;
                    },
                },
                None => {
                    overflow = true;
                    proof {
                        assert(spec_decimal(s@.subrange(start as int, i + 1)) >= acc * 10) by (nonlinear_arith)
                            requires
                                spec_decimal(s@.subrange(start as int, i + 1)) == acc * 10 + d,
                                d >= 0,
                        ;
                    }
                },
            }
        } else {
            assert(spec_decimal(s@.subrange(start as int, i + 1)) > u128::MAX) by (nonlinear_arith)
                requires
                    spec_decimal(s@.subrange(start as int, i + 1)) == spec_decimal(
                        s@.subrange(start as int, i as int),
                    ) * 10 + d,
                    spec_decimal(s@.subrange(start as int, i as int)) > u128::MAX,
                    d >= 0,
            ;
        }
        i = i + 1;
    }
    proof {
        assert(s@.subrange(start as int, n as int) =~= digits);
        assert forall|k: int| 0 <= k < digits.len() implies spec_is_digit(#[trigger] digits[k]) by {
            assert(digits[k] == s@[start + k]);
        }
    }
    if overflow {
        None
    } else {
        Some(acc)
    }
}

/// Checks of an oracle lock call, in order: the oracle account is the caller, the contract is
/// not paused, the quote is fresh, the intent parsed, the minimum lock is attached, the duration
/// is within the configured bounds, the quote carries a price, the intent's price and its
/// product exist and are active, the validator is active, and the multiplier is decimal.
/// The result is the multiplier and decimals of the first priced row.
pub open spec fn spec_oracle_lock(
    caller: Seq<char>,
    oracle_account_id: Seq<char>,
    paused: bool,
    data: OraclePriceData,
    now_ns: u64,
    max_age_ns: u64,
    intent: Option<LockForProductUsdMsg>,
    config: Config,
    locked: u128,
    price: Option<Price>,
    product: Option<Product>,
    validator: Option<Validator>,
) -> Result<(u128, u8), ContractError> {
    if caller != oracle_account_id {
        Err(ContractError::OracleNotCaller)
    } else if paused {
        Err(ContractError::Paused)
    } else if data.timestamp > now_ns {
        Err(ContractError::OracleFromFuture)
    } else if now_ns - data.timestamp > max_age_ns {
        Err(ContractError::OracleStale)
    } else if intent is None {
        Err(ContractError::OracleMsgInvalid)
    } else if locked < config.min_lock_amount {
        Err(ContractError::OracleBelowMinLock)
    } else if intent.unwrap().lock_duration_ns < config.min_lock_duration_ns
        || intent.unwrap().lock_duration_ns > config.max_lock_duration_ns {
        Err(ContractError::OracleDurationOutOfBounds)
    } else if spec_first_priced(data.prices@) is None {
        Err(ContractError::OracleNoPrice)
    } else if price is None {
        Err(ContractError::OracleUnknownPrice)
    } else if product is None {
        Err(ContractError::OracleUnknownProduct)
    } else if price.unwrap().status != CatalogStatus::Active {
        Err(ContractError::OraclePriceNotActive)
    } else if product.unwrap().status != CatalogStatus::Active {
        Err(ContractError::OracleProductNotActive)
    } else if validator is None {
        Err(ContractError::ValidatorNotFound)
    } else if validator.unwrap().status != ValidatorStatus::Active {
        Err(ContractError::ValidatorNotActiveForLock)
    } else {
        let row = data.prices@[spec_first_priced(data.prices@).unwrap()].price.unwrap();
        match spec_parse_u128(row.multiplier@) {
            Some(m) => Ok((m, row.decimals)),
            None => Err(ContractError::OracleMultiplierNotDecimal),
        }
    }
}

proof fn lemma_first_priced_is(rows: Seq<OracleAssetOptionalPrice>, i: int)
    requires
        0 <= i < rows.len(),
        rows[i].price is Some,
        forall|j: int| 0 <= j < i ==> (#[trigger] rows[j]).price is None,
    ensures
        spec_first_priced(rows) == Some(i),
{
    assert(rows[i].price is Some);
    let k = choose|k: int|
        0 <= k < rows.len() && (#[trigger] rows[k]).price is Some && forall|j: int|
            0 <= j < k ==> (#[trigger] rows[j]).price is None;
    if k < i {
        assert(rows[k].price is None);
    } else if k > i {
        assert(rows[i].price is None);
    }
}

pub fn check_oracle_lock(
    caller: &AccountId,
    oracle_account_id: &AccountId,
    paused: bool,
    data: &OraclePriceData,
    now_ns: u64,
    max_age_ns: u64,
    intent: Option<&LockForProductUsdMsg>,
    config: &Config,
    locked: u128,
    price: Option<&Price>,
    product: Option<&Product>,
    validator: Option<&Validator>,
) -> (r: Result<(u128, u8), ContractError>)
    ensures
        r == spec_oracle_lock(
            caller@,
            oracle_account_id@,
            paused,
            *data,
            now_ns,
            max_age_ns,
            opt_ref(intent),
            *config,
            locked,
            opt_ref(price),
            opt_ref(product),
            opt_ref(validator),
        ),
{
    if *caller != *oracle_account_id {
        return Err(ContractError::OracleNotCaller);
    }
    if paused {
        return Err(ContractError::Paused);
    }
    match validate_oracle_price_data(data, now_ns, max_age_ns) {
        Ok(()) => {},
        Err(e) => {
            return Err(e);
        },
    }
    let intent = match intent {
        Some(m) => m,
        None => {
            return Err(ContractError::OracleMsgInvalid);
        },
    };
    if locked < config.min_lock_amount {
        return Err(ContractError::OracleBelowMinLock);
    }
    if intent.lock_duration_ns < config.min_lock_duration_ns || intent.lock_duration_ns
        > config.max_lock_duration_ns {
        return Err(ContractError::OracleDurationOutOfBounds);
    }
    let row = match first_oracle_price(data) {
        Some(row) => row,
        None => {
            return Err(ContractError::OracleNoPrice);
        },
    };
    proof {
        let i = choose|i: int|
            0 <= i < data.prices@.len() && (#[trigger] data.prices@[i]).price == Some(*row) && forall|j: int|
                0 <= j < i ==> (#[trigger] data.prices@[j]).price is None;
        lemma_first_priced_is(data.prices@, i);
    }
    let p = match price {
        Some(p) => p,
        None => {
            return Err(ContractError::OracleUnknownPrice);
        },
    };
    let q = match product {
        Some(q) => q,
        None => {
            return Err(ContractError::OracleUnknownProduct);
        },
    };
    if p.status != CatalogStatus::Active {
        return Err(ContractError::OraclePriceNotActive);
    }
    if q.status != CatalogStatus::Active {
        return Err(ContractError::OracleProductNotActive);
    }
    match crate::lock::check_validator_active_for_lock(validator) {
        Ok(()) => {},
        Err(e) => {
            return Err(e);
        },
    }
    match parse_u128(row.multiplier.as_str()) {
        Some(m) => Ok((m, row.decimals)),
        None => Err(ContractError::OracleMultiplierNotDecimal),
    }
}

} // verus!
