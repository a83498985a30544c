//! Decisions of the bootstrap command line: network names, deploy mode, mainnet guard, signer
//! choice, shell quoting of printed commands, recognising a missing contract from a view error,
//! and the configuration defaults.

use vstd::prelude::*;
use vstd::string::StrSliceExecFns;

verus! {

/// Calls `String::from_iter` over the characters. Claimed: the text is the characters in order.
#[verifier::external_body]
pub(crate) fn chars_to_string(chars: Vec<char>) -> (r: String)
    ensures
        r@ == chars@,
{
    String::from_iter(chars)
}

#[derive(Clone, Copy, Debug, PartialEq, Eq, Structural)]
pub enum Network {
    Testnet,
    Mainnet,
}

pub open spec fn spec_network_name(n: Network) -> &'static str {
    match n {
        Network::Testnet => "testnet",
        Network::Mainnet => "mainnet",
    }
}

impl Network {
    pub fn as_near_network(self) -> (r: &'static str)
        ensures
            r@ == spec_network_name(self)@,
    {
        match self {
            Network::Testnet => "testnet",
            Network::Mainnet => "mainnet",
        }
    }
}

/// Why the command line refuses to go on.
#[derive(Clone, Copy, Debug, PartialEq, Eq, Structural)]
pub enum CliError {
    NoDeployMode,
    ConflictingDeployModes,
    MainnetNeedsConfirmation,
    TestFeatureOnMainnet,
    DeploySignerMismatch,
}

impl CliError {
    /// The text of the refusal.
    pub open spec fn spec_message(&self) -> Seq<char> {
        match self {
            CliError::NoDeployMode => "choose exactly one deploy mode: --fresh or --code-only"@,
            CliError::ConflictingDeployModes => "--fresh and --code-only are mutually exclusive"@,
            CliError::MainnetNeedsConfirmation => "mainnet mutations require --yes-mainnet"@,
            CliError::TestFeatureOnMainnet => "test-feature deployments are not allowed on mainnet"@,
            CliError::DeploySignerMismatch => "deploy signer must equal target account; near-cli signs contract deploys with the deployed account key"@,
        }
    }

    pub fn message(&self) -> (r: &'static str)
        ensures
            r@ == self.spec_message(),
    {
        match self {
            CliError::NoDeployMode => "choose exactly one deploy mode: --fresh or --code-only",
            CliError::ConflictingDeployModes => "--fresh and --code-only are mutually exclusive",
            CliError::MainnetNeedsConfirmation => "mainnet mutations require --yes-mainnet",
            CliError::TestFeatureOnMainnet => "test-feature deployments are not allowed on mainnet",
            CliError::DeploySignerMismatch => "deploy signer must equal target account; near-cli signs contract deploys with the deployed account key",
        }
    }
}

#[derive(Clone, Copy, Debug, PartialEq, Eq, Structural)]
pub enum DeployMode {
    Fresh,
    CodeOnly,
}

impl DeployMode {
    pub fn as_str(&self) -> (r: &'static str)
        ensures
            r@ == (match self {
                DeployMode::Fresh => "fresh",
                DeployMode::CodeOnly => "code-only",
            })@,
    {
        match self {
            DeployMode::Fresh => "fresh",
            DeployMode::CodeOnly => "code-only",
        }
    }
}

/// Exactly one of `--fresh` and `--code-only`.
pub fn deploy_mode(fresh: bool, code_only: bool) -> (r: Result<DeployMode, CliError>)
    ensures
        r == if fresh && !code_only {
            Ok(DeployMode::Fresh)
        } else if !fresh && code_only {
            Ok(DeployMode::CodeOnly)
        } else if !fresh && !code_only {
            Err(CliError::NoDeployMode)
        } else {
            Err(CliError::ConflictingDeployModes)
        },
{
    match (fresh, code_only) {
        (true, false) => Ok(DeployMode::Fresh),
        (false, true) => Ok(DeployMode::CodeOnly),
        (false, false) => Err(CliError::NoDeployMode),
        (true, true) => Err(CliError::ConflictingDeployModes),
    }
}

/// A deploy target: test-feature builds never go to mainnet, and an explicit signer must be the
/// deployed account (near-cli signs a deploy with that account's key).
pub fn check_deploy_target(test_feature: bool, network: Network, signer: Option<&str>, account_id: &str) -> (r:
    Result<(), CliError>)
    ensures
        r == if test_feature && network == Network::Mainnet {
            Err(CliError::TestFeatureOnMainnet)
        } else if signer matches Some(s) && s@ != account_id@ {
            Err(CliError::DeploySignerMismatch)
        } else {
            Ok(())
        },
{
    if test_feature && network == Network::Mainnet {
        return Err(CliError::TestFeatureOnMainnet);
    }
    match signer {
        Some(s) => if crate::bootstrap::str_eq(s, account_id) {
            Ok(())
        } else {
            Err(CliError::DeploySignerMismatch)
        },
        None => Ok(()),
    }
}

/// The contract owner of a deploy: the `--owner` flag, else the configured owner, else the
/// deployed account itself.
pub fn deploy_owner(flag: Option<String>, configured: Option<String>, account_id: String) -> (r: String)
    ensures
        r == match flag {
            Some(o) => o,
            None => match configured {
                Some(o) => o,
                None => account_id,
            },
        },
{
    match flag {
        Some(o) => o,
        None => match configured {
            Some(o) => o,
            None => account_id,
        },
    }
}

/// The staking contract wasm built with the test feature, relative to the repository root.
pub fn default_staking_test_wasm() -> (r: String)
    ensures
        r@ == "res/local/staking_contract_test.wasm"@,
{
    "res/local/staking_contract_test.wasm".to_owned()
}

/// The staking contract wasm of a normal build, relative to the repository root.
pub fn default_staking_wasm() -> (r: String)
    ensures
        r@ == "res/local/staking_contract.wasm"@,
{
    "res/local/staking_contract.wasm".to_owned()
}

/// The wasm that a deploy uploads: the `--wasm` flag, else the configured wasm of the build kind
/// (the test wasm for a test-feature deploy), else that build kind's default path.
pub fn deploy_wasm(
    flag: Option<String>,
    test_feature: bool,
    configured_test: Option<String>,
    configured: Option<String>,
) -> (r: String)
    ensures
        r@ == match flag {
            Some(w) => w@,
            None => {
                let c = if test_feature {
                    configured_test
                } else {
                    configured
                };
                match c {
                    Some(w) => w@,
                    None => if test_feature {
                        "res/local/staking_contract_test.wasm"@
                    } else {
                        "res/local/staking_contract.wasm"@
                    },
                }
            },
        },
{
    match flag {
        Some(w) => w,
        None => {
            let c = if test_feature {
                configured_test
            } else {
                configured
            };
            match c {
                Some(w) => w,
                None => if test_feature {
                    default_staking_test_wasm()
                } else {
                    default_staking_wasm()
                },
            }
        },
    }
}

/// Sending to mainnet needs the explicit confirmation flag.
pub fn guard_mainnet(send: bool, network: Network, yes_mainnet: bool) -> (r: Result<(), CliError>)
    ensures
        r == if send && network == Network::Mainnet && !yes_mainnet {
            Err(CliError::MainnetNeedsConfirmation)
        } else {
            Ok(())
        },
{
    if send && network == Network::Mainnet && !yes_mainnet {
        Err(CliError::MainnetNeedsConfirmation)
    } else {
        Ok(())
    }
}

/// Unicode `White_Space`, as `char::is_whitespace` tests it.
pub open spec fn spec_is_whitespace(c: char) -> bool {
    let u = c as u32;
    (0x9 <= u && u <= 0xd) || u == 0x20 || u == 0x85 || u == 0xa0 || u == 0x1680 || (0x2000 <= u
        && u <= 0x200a) || u == 0x2028 || u == 0x2029 || u == 0x202f || u == 0x205f || u == 0x3000
}

fn is_whitespace(c: char) -> (r: bool)
    ensures
        r == spec_is_whitespace(c),
{
    let u = c as u32;
    (0x9 <= u && u <= 0xd) || u == 0x20 || u == 0x85 || u == 0xa0 || u == 0x1680 || (0x2000 <= u
        && u <= 0x200a) || u == 0x2028 || u == 0x2029 || u == 0x202f || u == 0x205f || u == 0x3000
}

/// The text with leading and trailing whitespace removed, or nothing when that leaves it empty.
pub open spec fn spec_all_whitespace(s: Seq<char>) -> bool {
    forall|k: int| 0 <= k < s.len() ==> spec_is_whitespace(#[trigger] s[k])
}

/// `t` is `s` without its leading and trailing whitespace, and not empty.
pub open spec fn spec_is_trim(s: Seq<char>, t: Seq<char>) -> bool {
    exists|a: int, b: int|
        0 <= a < b <= s.len() && t == s.subrange(a, b) && (forall|k: int|
            0 <= k < a ==> spec_is_whitespace(#[trigger] s[k])) && (forall|k: int|
            b <= k < s.len() ==> spec_is_whitespace(#[trigger] s[k])) && !spec_is_whitespace(s[a])
            && !spec_is_whitespace(s[b - 1])
}

/// What [`non_empty`] gives for `value`: nothing for nothing or blank text, else the trimmed text.
pub open spec fn spec_non_empty(value: Option<Seq<char>>, r: Option<Seq<char>>) -> bool {
    match value {
        None => r is None,
        Some(s) => if spec_all_whitespace(s) {
            r is None
        } else {
            r matches Some(t) && spec_is_trim(s, t)
        },
    }
}

pub open spec fn opt_str_view(o: Option<&str>) -> Option<Seq<char>> {
    match o {
        Some(s) => Some(s@),
        None => None,
    }
}

pub fn non_empty(value: Option<&str>) -> (r: Option<&str>)
    ensures
        spec_non_empty(opt_str_view(value), opt_str_view(r)),
{
    let v = match value {
        None => {
            return None;
        },
        Some(v) => v,
    };
    let n = v.unicode_len();
    let mut a: usize = 0;
    while a < n && is_whitespace(v.get_char(a))
        invariant
            n == v@.len(),
            a <= n,
            forall|k: int| 0 <= k < a ==> spec_is_whitespace(#[trigger] v@[k]),
        decreases n - a,
    {
        a = a + 1;
    }
    if a == n {
        return None;
    }
    let mut b: usize = n;
    while b > a && is_whitespace(v.get_char(b - 1))
        invariant
            n == v@.len(),
            a < n,
            a < b <= n,
            !spec_is_whitespace(v@[a as int]),
            forall|k: int| b <= k < n ==> spec_is_whitespace(#[trigger] v@[k]),
        decreases b,
    {
        b = b - 1;
    }
    Some(v.substring_char(a, b))
}

/// Characters printed bare by [`shell_quote`].
pub open spec fn spec_shell_safe(c: char) -> bool {
    ('a' <= c && c <= 'z') || ('A' <= c && c <= 'Z') || ('0' <= c && c <= '9') || c == '-' || c
        == '_' || c == '.' || c == '/' || c == ':' || c == '=' || c == '@'
}

fn shell_safe(c: char) -> (r: bool)
    ensures
        r == spec_shell_safe(c),
{
    ('a' <= c && c <= 'z') || ('A' <= c && c <= 'Z') || ('0' <= c && c <= '9') || c == '-' || c
        == '_' || c == '.' || c == '/' || c == ':' || c == '=' || c == '@'
}

/// The characters with each single quote written as `'\''`.
pub open spec fn spec_escape_quotes(s: Seq<char>) -> Seq<char>
    decreases s.len(),
{
    if s.len() == 0 {
        Seq::empty()
    } else {
        let rest = spec_escape_quotes(s.drop_last());
        if s.last() == '\'' {
            rest + seq!['\'', '\\', '\'', '\'']
        } else {
            rest.push(s.last())
        }
    }
}

/// Prints a word bare when every character is shell-safe, otherwise single-quoted with inner
/// quotes escaped.
pub fn shell_quote(value: &str) -> (r: String)
    ensures
        (forall|k: int| 0 <= k < value@.len() ==> spec_shell_safe(#[trigger] value@[k])) ==> r@
            == value@,
        !(forall|k: int| 0 <= k < value@.len() ==> spec_shell_safe(#[trigger] value@[k])) ==> r@
            == seq!['\''] + spec_escape_quotes(value@) + seq!['\''],
{
    let n = value.unicode_len();
    let mut i: usize = 0;
    let mut safe = true;
    while i < n
        invariant
            n == value@.len(),
            i <= n,
            safe == (forall|k: int| 0 <= k < i ==> spec_shell_safe(#[trigger] value@[k])),
        decreases n - i,
    {
        if !shell_safe(value.get_char(i)) {
            safe = false;
        }
        i = i + 1;
    }
    let mut out: Vec<char> = Vec::new();
    if safe {
        let mut j: usize = 0;
        while j < n
            invariant
                n == value@.len(),
                j <= n,
                out@ == value@.take(j as int),
            decreases n - j,
        {
            out.push(value.get_char(j));
            j = j + 1;
            proof {
                assert(out@ =~= value@.take(j as int));
            }
        }
        proof {
            assert(value@.take(n as int) =~= value@);
        }
        return chars_to_string(out);
    }
    out.push('\'');
    let mut j: usize = 0;
    while j < n
        invariant
            n == value@.len(),
            j <= n,
            out@ == seq!['\''] + spec_escape_quotes(value@.take(j as int)),
        decreases n - j,
    {
        let c = value.get_char(j);
        proof {
            assert(value@.take(j + 1).drop_last() =~= value@.take(j as int));
            assert(value@.take(j + 1).last() == c);
        }
        if c == '\'' {
            out.push('\'');
            out.push('\\');
            out.push('\'');
            out.push('\'');
        } else {
            out.push(c);
        }
        j = j + 1;
        proof {
            assert(out@ =~= seq!['\''] + spec_escape_quotes(value@.take(j as int)));
        }
    }
    out.push('\'');
    proof {
        assert(value@.take(n as int) =~= value@);
    }
    chars_to_string(out)
}

/// ASCII upper-case letters lowered; everything else kept.
pub open spec fn spec_ascii_lower(c: char) -> char {
    if 'A' <= c && c <= 'Z' {
        ((c as u32) + 32) as char
    } else {
        c
    }
}

fn ascii_lower(c: char) -> (r: char)
    ensures
        r == spec_ascii_lower(c),
{
    if 'A' <= c && c <= 'Z' {
        (((c as u32) + 32) as u8) as char
    } else {
        c
    }
}

/// `pat` occurs in `s` at some position.
pub open spec fn spec_contains(s: Seq<char>, pat: Seq<char>) -> bool {
    exists|i: int| 0 <= i <= s.len() - pat.len() && #[trigger] s.subrange(i, i + pat.len()) == pat
}

fn contains_at(s: &Vec<char>, pat: &str, i: usize) -> (r: bool)
    requires
        i + pat@.len() <= s@.len(),
    ensures
        r == (s@.subrange(i as int, i + pat@.len()) == pat@),
{
    let m = pat.unicode_len();
    let n = s.len();
    let mut k: usize = 0;
    while k < m
        invariant
            m == pat@.len(),
            n == s@.len(),
            i + m <= n,
            k <= m,
            forall|t: int| 0 <= t < k ==> s@[i + t] == pat@[t],
        decreases m - k,
    {
        let idx: usize = i + k;
        if s[idx] != pat.get_char(k) {
            proof {
                assert(s@.subrange(i as int, i + pat@.len())[k as int] != pat@[k as int]);
            }
            return false;
        }
        k = k + 1;
    }
    assert(s@.subrange(i as int, i + pat@.len()) =~= pat@);
    true
}

fn contains(s: &Vec<char>, pat: &str) -> (r: bool)
    ensures
        r == spec_contains(s@, pat@),
{
    let m = pat.unicode_len();
    if m > s.len() {
        return false;
    }
    if m == 0 {
        assert(s@.subrange(0int, 0int + pat@.len()) =~= pat@);
        return true;
    }
    let limit = s.len() - m + 1;
    let mut i: usize = 0;
    while i < limit
        invariant
            m == pat@.len(),
            1 <= m <= s@.len(),
            limit == s@.len() - m + 1,
            i <= limit,
            forall|t: int| 0 <= t < i ==> #[trigger] s@.subrange(t, t + m) != pat@,
        decreases limit - i,
    {
        if contains_at(s, pat, i) {
            return true;
        }
        i = i + 1;
    }
    false
}

/// A view error meaning the account or its contract code is missing: its text, ASCII
/// lower-cased, names a missing account or contract, or undeployed code.
pub open spec fn spec_missing_contract_text(low: Seq<char>) -> bool {
    (spec_contains(low, "account"@) && spec_contains(low, "does not exist"@)) || (spec_contains(
        low,
        "contract"@,
    ) && spec_contains(low, "does not exist"@)) || spec_contains(low, "wasm code is not deployed"@)
        || spec_contains(low, "code is not deployed"@) || spec_contains(
        low,
        "contract code is not deployed"@,
    ) || spec_contains(low, "codedoesnotexist"@)
}

pub fn is_missing_contract_view_error(message: &str) -> (r: bool)
    ensures
        r == spec_missing_contract_text(message@.map_values(|c: char| spec_ascii_lower(c))),
{
    let n = message.unicode_len();
    let mut low: Vec<char> = Vec::new();
    let mut i: usize = 0;
    while i < n
        invariant
            n == message@.len(),
            i <= n,
            low@ == message@.take(i as int).map_values(|c: char| spec_ascii_lower(c)),
        decreases n - i,
    {
        low.push(ascii_lower(message.get_char(i)));
        i = i + 1;
        proof {
            assert(low@ =~= message@.take(i as int).map_values(|c: char| spec_ascii_lower(c)));
        }
    }
    proof {
        assert(message@.take(n as int) =~= message@);
    }
    (contains(&low, "account") && contains(&low, "does not exist")) || (contains(&low, "contract")
        && contains(&low, "does not exist")) || contains(&low, "wasm code is not deployed")
        || contains(&low, "code is not deployed") || contains(&low, "contract code is not deployed")
        || contains(&low, "codedoesnotexist")
}

/// The signer for a catalog command: the explicit `--signer`, else the product owner named in
/// the configuration (trimmed, when not blank), else the context signer.
pub fn catalog_signer<'a>(explicit: Option<&'a str>, product_owner: Option<&'a str>, ctx_signer: &'a str) -> (r:
    &'a str)
    ensures
        explicit matches Some(s) ==> r == s,
        explicit is None ==> (if spec_non_empty(opt_str_view(product_owner), None) {
            r == ctx_signer
        } else {
            spec_non_empty(opt_str_view(product_owner), Some(r@))
        }),
{
    match explicit {
        Some(s) => s,
        None => match non_empty(product_owner) {
            Some(o) => o,
            None => ctx_signer,
        },
    }
}

pub fn default_min_lock_duration_ns() -> (r: String)
    ensures
        r@ == "1"@,
{
    "1".to_owned()
}

/// Two years of nanoseconds.
pub fn default_max_lock_duration_ns() -> (r: String)
    ensures
        r@ == "63072000000000000"@,
{
    "63072000000000000".to_owned()
}

pub fn default_epoch_unstake_settle_epochs() -> (r: u64)
    ensures
        r == 4,
{
    4
}

/// 0.01 NEAR in yocto.
pub fn default_min_storage_deposit() -> (r: String)
    ensures
        r@ == "10000000000000000000000"@,
{
    "10000000000000000000000".to_owned()
}

pub fn default_zero_amount() -> (r: String)
    ensures
        r@ == "0"@,
{
    "0".to_owned()
}

/// One NEAR in yocto.
pub fn default_min_lock_amount() -> (r: String)
    ensures
        r@ == "1000000000000000000000000"@,
{
    "1000000000000000000000000".to_owned()
}

pub fn default_price_type() -> (r: String)
    ensures
        r@ == "OneOff"@,
{
    "OneOff".to_owned()
}

pub fn default_view_limit() -> (r: u64)
    ensures
        r == 20,
{
    20
}

/// SHA-256 of the bytes, as `sha2` computes it.
pub uninterp spec fn sha2_sha256(data: Seq<u8>) -> Seq<u8>;

/// Calls `sha2::Sha256::digest` (through `sha2::Digest`). Claimed: the result is a function of
/// the bytes alone (their SHA-256) and is 32 bytes long.
#[verifier::external_body]
fn sha2_digest(data: &[u8]) -> (r: Vec<u8>)
    ensures
        r@ == sha2_sha256(data@),
        r@.len() == 32,
{
    <sha2::Sha256 as sha2::Digest>::digest(data).to_vec()
}

/// Lower-case hex digit of a nibble.
pub open spec fn spec_hex_digit(n: int) -> char {
    if n < 10 {
        (48 + n) as char
    } else {
        (97 + n - 10) as char
    }
}

/// Two lower-case hex digits per byte, high nibble first.
pub open spec fn spec_hex(bytes: Seq<u8>) -> Seq<char>
    decreases bytes.len(),
{
    if bytes.len() == 0 {
        Seq::empty()
    } else {
        spec_hex(bytes.drop_last()) + seq![
            spec_hex_digit(bytes.last() as int / 16),
            spec_hex_digit(bytes.last() as int % 16),
        ]
    }
}

/// Calls `hex::encode`. Claimed: two lower-case hex digits per byte, high nibble first.
#[verifier::external_body]
fn hex_encode(bytes: &[u8]) -> (r: String)
    ensures
        r@ == spec_hex(bytes@),
{
    hex::encode(bytes)
}

/// The SHA-256 of a contract artifact, in lower-case hex, as printed before a deploy.
pub fn wasm_sha256(data: &[u8]) -> (r: String)
    ensures
        r@ == spec_hex(sha2_sha256(data@)),
        r@.len() == 64,
{
    let digest = sha2_digest(data);
    proof {
        lemma_hex_len(digest@);
    }
    hex_encode(digest.as_slice())
}

proof fn lemma_hex_len(bytes: Seq<u8>)
    ensures
        spec_hex(bytes).len() == 2 * bytes.len(),
    decreases bytes.len(),
{
    if bytes.len() > 0 {
        lemma_hex_len(bytes.drop_last());
    }
}

} // verus!
