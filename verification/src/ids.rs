//! Generated ids: `prod_*`, `price_*`, `sub_*`, `lock_*`, `pay_*`. The suffix is the base62
//! rendering of a SHA-256 digest of the prefix, a nonce, the block height, the block time and the
//! caller, re-hashed when more characters are needed than the digest has bytes.

use crate::types::AccountId;
use vstd::prelude::*;
use vstd::string::StringSliceAdditionalSpecFns;
use vstd::string::StrSliceExecFns;

verus! {

pub const PROD_SUFFIX_LEN: usize = 14;

pub const PRICE_SUFFIX_LEN: usize = 24;

pub const SUB_LOCK_SUFFIX_LEN: usize = 17;

pub const PURCHASE_SUFFIX_LEN: usize = 17;

/// SHA-256 of the bytes.
pub uninterp spec fn sha256_digest(data: Seq<u8>) -> Seq<u8>;

/// Calls `near_sdk::env::sha256`. Claimed: the result is the SHA-256 of the input, a function
/// of the bytes alone, and is 32 bytes long (it is the 32-byte `sha256_array` as a vector).
#[verifier::external_body]
fn sha256(data: &[u8]) -> (r: Vec<u8>)
    ensures
        r@ == sha256_digest(data@),
        r@.len() == 32,
{
    near_sdk::env::sha256(data)
}

/// Calls `String::from_utf8`, which accepts every ASCII byte string. Claimed: the text holds the
/// bytes as characters, one for one.
#[verifier::external_body]
fn ascii_to_string(bytes: Vec<u8>) -> (r: String)
    requires
        forall|i: int| 0 <= i < bytes@.len() ==> bytes@[i] < 128,
    ensures
        r@ == bytes@.map_values(|b: u8| b as char),
{
    match String::from_utf8(bytes) {
        Ok(s) => s,
        Err(_) => String::new(),
    }
}

/// The base62 alphabet: digits, then upper case, then lower case letters.
pub open spec fn spec_base62_byte(i: int) -> u8 {
    if i < 10 {
        (48 + i) as u8
    } else if i < 36 {
        (65 + i - 10) as u8
    } else {
        (97 + i - 36) as u8
    }
}

fn base62_byte(i: u8) -> (r: u8)
    requires
        i < 62,
    ensures
        r == spec_base62_byte(i as int),
        r < 128,
{
    if i < 10 {
        48 + i
    } else if i < 36 {
        65 + i - 10
    } else {
        97 + i - 36
    }
}

/// `n` base62 bytes read from `buf` at `idx` on, continuing on the digest of the block when
/// the block is used up.
pub open spec fn spec_base62_stream(buf: Seq<u8>, idx: int, n: nat) -> Seq<u8>
    decreases n, if 0 <= idx < buf.len() {
        0int
    } else {
        1int
    },
{
    if n == 0 {
        Seq::empty()
    } else if 0 <= idx < buf.len() {
        seq![spec_base62_byte((buf[idx] % 62) as int)] + spec_base62_stream(
            buf,
            idx + 1,
            (n - 1) as nat,
        )
    } else {
        let next = sha256_digest(buf);
        if next.len() == 0 {
            Seq::empty()
        } else {
            spec_base62_stream(next, 0, n)
        }
    }
}

/// Renders `out_len` base62 characters from `hash`, re-hashing when the bytes run out.
pub fn base62_from_hash(hash: &Vec<u8>, out_len: usize) -> (r: String)
    ensures
        r@ == spec_base62_stream(hash@, 0, out_len as nat).map_values(|b: u8| b as char),
        r@.len() == out_len,
{
    let mut buf: Vec<u8> = hash.clone();
    let mut out: Vec<u8> = Vec::new();
    let mut idx: usize = 0;
    while out.len() < out_len
        invariant
            out.len() <= out_len,
            idx <= buf@.len() || buf@.len() == 0,
            forall|i: int| 0 <= i < out@.len() ==> out@[i] < 128,
            out@ + spec_base62_stream(buf@, idx as int, (out_len - out.len()) as nat)
                == spec_base62_stream(hash@, 0, out_len as nat),
        decreases out_len - out.len(), if (idx as int) < buf@.len() {
            0int
        } else {
            1int
        },
    {
        if idx >= buf.len() {
            let next = sha256(buf.as_slice());
            proof {
                assert(out@ + spec_base62_stream(buf@, idx as int, (out_len - out.len()) as nat)
                    == out@ + spec_base62_stream(next@, 0, (out_len - out.len()) as nat));
            }
            buf = next;
            idx = 0;
        } else {
            let c = base62_byte(buf[idx] % 62);
            proof {
                let n = (out_len - out.len()) as nat;
                assert(spec_base62_stream(buf@, idx as int, n) == seq![c] + spec_base62_stream(
                    buf@,
                    idx + 1,
                    (n - 1) as nat,
                ));
                assert(out@.push(c) + spec_base62_stream(buf@, idx + 1, (n - 1) as nat) =~= out@
                    + (seq![c] + spec_base62_stream(buf@, idx + 1, (n - 1) as nat)));
            }
            out.push(c);
            idx = idx + 1;
        }
    }
    proof {
        assert(out@ + spec_base62_stream(buf@, idx as int, 0) =~= out@);
    }
    ascii_to_string(out)
}

/// Big-endian bytes of a `u64`.
pub open spec fn spec_be_bytes(x: u64) -> Seq<u8> {
    seq![
        ((x >> 56u64) & 0xff) as u8,
        ((x >> 48u64) & 0xff) as u8,
        ((x >> 40u64) & 0xff) as u8,
        ((x >> 32u64) & 0xff) as u8,
        ((x >> 24u64) & 0xff) as u8,
        ((x >> 16u64) & 0xff) as u8,
        ((x >> 8u64) & 0xff) as u8,
        (x & 0xff) as u8,
    ]
}

fn push_be_bytes(buf: &mut Vec<u8>, x: u64)
    ensures
        final(buf)@ == old(buf)@ + spec_be_bytes(x),
{
    buf.push(((x >> 56u64) & 0xff) as u8);
    buf.push(((x >> 48u64) & 0xff) as u8);
    buf.push(((x >> 40u64) & 0xff) as u8);
    buf.push(((x >> 32u64) & 0xff) as u8);
    buf.push(((x >> 24u64) & 0xff) as u8);
    buf.push(((x >> 16u64) & 0xff) as u8);
    buf.push(((x >> 8u64) & 0xff) as u8);
    buf.push((x & 0xff) as u8);
    assert(final(buf)@ =~= old(buf)@ + spec_be_bytes(x));
}

fn push_bytes(buf: &mut Vec<u8>, bytes: &[u8])
    ensures
        final(buf)@ == old(buf)@ + bytes@,
{
    let mut i: usize = 0;
    while i < bytes.len()
        invariant
            i <= bytes@.len(),
            buf@ == old(buf)@ + bytes@.take(i as int),
        decreases bytes@.len() - i,
    {
        buf.push(bytes[i]);
        i = i + 1;
        assert(buf@ =~= old(buf)@ + bytes@.take(i as int));
    }
    assert(bytes@.take(i as int) =~= bytes@);
}

/// The bytes an id digest is taken over.
pub open spec fn spec_id_preimage(
    prefix: Seq<u8>,
    nonce: u64,
    block_height: u64,
    timestamp: u64,
    predecessor: Seq<u8>,
) -> Seq<u8> {
    prefix + spec_be_bytes(nonce) + spec_be_bytes(block_height) + spec_be_bytes(timestamp)
        + predecessor
}

/// The id `prefix_<suffix>` for the given nonce and call context.
pub open spec fn spec_id(
    prefix: &str,
    suffix_len: nat,
    nonce: u64,
    block_height: u64,
    timestamp: u64,
    predecessor: Seq<char>,
) -> Seq<char> {
    prefix@ + "_"@ + spec_base62_stream(
        sha256_digest(
            spec_id_preimage(
                prefix.spec_bytes(),
                nonce,
                block_height,
                timestamp,
                vstd::utf8::encode_utf8(predecessor),
            ),
        ),
        0,
        suffix_len,
    ).map_values(|b: u8| b as char)
}

/// Generates the next id with `prefix` and consumes one nonce (saturating).
pub fn next_id(
    prefix: &str,
    suffix_len: usize,
    nonce: &mut u64,
    block_height: u64,
    timestamp: u64,
    predecessor: &AccountId,
) -> (r: String)
    ensures
        *final(nonce) == if *old(nonce) == u64::MAX {
            u64::MAX
        } else {
            (*old(nonce) + 1) as u64
        },
        r@ == spec_id(prefix, suffix_len as nat, *old(nonce), block_height, timestamp, predecessor@),
        r@.len() == prefix@.len() + 1 + suffix_len,
{
    let word = *nonce;
    *nonce = nonce.saturating_add(1);
    let mut buf: Vec<u8> = Vec::new();
    push_bytes(&mut buf, prefix.as_bytes());
    push_be_bytes(&mut buf, word);
    push_be_bytes(&mut buf, block_height);
    push_be_bytes(&mut buf, timestamp);
    push_bytes(&mut buf, predecessor.as_str().as_bytes());
    let hash = sha256(buf.as_slice());
    let encoded = base62_from_hash(&hash, suffix_len);
    let mut out = String::from_str(prefix);
    proof {
        reveal_strlit("_");
    }
    out.append("_");
    out.append(encoded.as_str());
    out
}

pub fn next_product_id(nonce: &mut u64, block_height: u64, timestamp: u64, predecessor: &AccountId) -> (r: String)
    ensures
        *final(nonce) == if *old(nonce) == u64::MAX {
            u64::MAX
        } else {
            (*old(nonce) + 1) as u64
        },
        r@ == spec_id("prod", PROD_SUFFIX_LEN as nat, *old(nonce), block_height, timestamp, predecessor@),
        r@.len() == 19,
{
    proof {
        reveal_strlit("prod");
    }
    next_id("prod", PROD_SUFFIX_LEN, nonce, block_height, timestamp, predecessor)
}

pub fn next_price_id(nonce: &mut u64, block_height: u64, timestamp: u64, predecessor: &AccountId) -> (r: String)
    ensures
        *final(nonce) == if *old(nonce) == u64::MAX {
            u64::MAX
        } else {
            (*old(nonce) + 1) as u64
        },
        r@ == spec_id("price", PRICE_SUFFIX_LEN as nat, *old(nonce), block_height, timestamp, predecessor@),
        r@.len() == 30,
{
    proof {
        reveal_strlit("price");
    }
    next_id("price", PRICE_SUFFIX_LEN, nonce, block_height, timestamp, predecessor)
}

pub fn next_subscription_id(nonce: &mut u64, block_height: u64, timestamp: u64, predecessor: &AccountId) -> (r: String)
    ensures
        *final(nonce) == if *old(nonce) == u64::MAX {
            u64::MAX
        } else {
            (*old(nonce) + 1) as u64
        },
        r@ == spec_id("sub", SUB_LOCK_SUFFIX_LEN as nat, *old(nonce), block_height, timestamp, predecessor@),
        r@.len() == 21,
{
    proof {
        reveal_strlit("sub");
    }
    next_id("sub", SUB_LOCK_SUFFIX_LEN, nonce, block_height, timestamp, predecessor)
}

pub fn next_lock_id(nonce: &mut u64, block_height: u64, timestamp: u64, predecessor: &AccountId) -> (r: String)
    ensures
        *final(nonce) == if *old(nonce) == u64::MAX {
            u64::MAX
        } else {
            (*old(nonce) + 1) as u64
        },
        r@ == spec_id("lock", SUB_LOCK_SUFFIX_LEN as nat, *old(nonce), block_height, timestamp, predecessor@),
        r@.len() == 22,
{
    proof {
        reveal_strlit("lock");
    }
    next_id("lock", SUB_LOCK_SUFFIX_LEN, nonce, block_height, timestamp, predecessor)
}

pub fn next_purchase_id(nonce: &mut u64, block_height: u64, timestamp: u64, predecessor: &AccountId) -> (r: String)
    ensures
        *final(nonce) == if *old(nonce) == u64::MAX {
            u64::MAX
        } else {
            (*old(nonce) + 1) as u64
        },
        r@ == spec_id("pay", PURCHASE_SUFFIX_LEN as nat, *old(nonce), block_height, timestamp, predecessor@),
        r@.len() == 21,
{
    proof {
        reveal_strlit("pay");
    }
    next_id("pay", PURCHASE_SUFFIX_LEN, nonce, block_height, timestamp, predecessor)
}

/// The nonce after `k` saturating increments.
pub open spec fn spec_nonce_after(nonce: u64, k: int) -> u64 {
    if nonce + k > u64::MAX {
        u64::MAX
    } else {
        (nonce + k) as u64
    }
}

/// Attempts of [`next_unique_generated_id`] before it gives up.
pub const UNIQUE_ID_ATTEMPTS: u64 = 64;

/// Generates ids with `prefix` until one is not `taken`, trying at most
/// [`UNIQUE_ID_ATTEMPTS`] times; each attempt consumes one nonce. `None` when every attempt
/// collided.
pub fn next_unique_generated_id<F: Fn(&String) -> bool>(
    prefix: &str,
    suffix_len: usize,
    nonce: &mut u64,
    block_height: u64,
    timestamp: u64,
    predecessor: &AccountId,
    taken: F,
) -> (r: Option<String>)
    requires
        forall|s: &String| taken.requires((s,)),
    ensures
        r matches Some(id) ==> exists|k: int|
            0 <= k < UNIQUE_ID_ATTEMPTS && id@ == spec_id(
                prefix,
                suffix_len as nat,
                spec_nonce_after(*old(nonce), k),
                block_height,
                timestamp,
                predecessor@,
            ) && *final(nonce) == spec_nonce_after(*old(nonce), k + 1) && taken.ensures((&id,), false),
        r matches Some(id) ==> id@.len() == prefix@.len() + 1 + suffix_len,
        r is None ==> *final(nonce) == spec_nonce_after(*old(nonce), UNIQUE_ID_ATTEMPTS as int),
{
    let ghost start = *nonce;
    let mut attempt: u64 = 0;
    let mut found: Option<String> = None;
    while attempt < UNIQUE_ID_ATTEMPTS && found.is_none()
        invariant
            attempt <= UNIQUE_ID_ATTEMPTS,
            found is None ==> *nonce == spec_nonce_after(start, attempt as int),
            found matches Some(id) ==> exists|k: int|
                0 <= k < UNIQUE_ID_ATTEMPTS && id@ == spec_id(
                    prefix,
                    suffix_len as nat,
                    spec_nonce_after(start, k),
                    block_height,
                    timestamp,
                    predecessor@,
                ) && *nonce == spec_nonce_after(start, k + 1) && taken.ensures((&id,), false),
            found matches Some(id) ==> id@.len() == prefix@.len() + 1 + suffix_len,
            forall|s: &String| taken.requires((s,)),
        decreases UNIQUE_ID_ATTEMPTS - attempt,
    {
        let ghost k = attempt as int;
        let id = next_id(prefix, suffix_len, nonce, block_height, timestamp, predecessor);
        let is_taken = taken(&id);
        if !is_taken {
            assert(id@ == spec_id(
                prefix,
                suffix_len as nat,
                spec_nonce_after(start, k),
                block_height,
                timestamp,
                predecessor@,
            ) && *nonce == spec_nonce_after(start, k + 1) && taken.ensures((&id,), false));
            found = Some(id);
        }
        attempt = attempt + 1;
    }
    found
}

} // verus!
