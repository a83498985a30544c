//! Checks the bootstrap command line runs on contract views: records as JSON objects whose
//! fields it compares with the configuration, and price metadata in its canonical form.

use vstd::prelude::*;
use vstd::string::StrSliceExecFns;

verus! {

/// A JSON value below an object field: scalars as values, string arrays element by element,
/// anything else as its compact JSON text.
#[derive(Debug)]
pub enum JsonLeaf {
    Null,
    Bool(bool),
    /// A number in its JSON text.
    Number(String),
    Str(String),
    Strings(Vec<String>),
    /// Another array or an object, as compact JSON text.
    Composite(String),
}

/// One field of a JSON object of leaves.
#[derive(Debug)]
pub struct LeafEntry {
    pub key: String,
    pub value: JsonLeaf,
}

/// A field value of a viewed record: a leaf, or an object of leaves (such as price metadata).
#[derive(Debug)]
pub enum JsonNode {
    Leaf(JsonLeaf),
    Object(Vec<LeafEntry>),
}

/// One field of a viewed record.
#[derive(Debug)]
pub struct NodeEntry {
    pub key: String,
    pub value: JsonNode,
}

/// A view result: a record (a JSON object, fields in key order) or null.
#[derive(Debug)]
pub enum JsonDoc {
    Null,
    Record(Vec<NodeEntry>),
}

/// Two leaves hold the same JSON value.
pub open spec fn spec_leaf_eq(a: JsonLeaf, b: JsonLeaf) -> bool {
    match (a, b) {
        (JsonLeaf::Null, JsonLeaf::Null) => true,
        (JsonLeaf::Bool(x), JsonLeaf::Bool(y)) => x == y,
        (JsonLeaf::Number(x), JsonLeaf::Number(y)) => x@ == y@,
        (JsonLeaf::Str(x), JsonLeaf::Str(y)) => x@ == y@,
        (JsonLeaf::Strings(x), JsonLeaf::Strings(y)) => x@.len() == y@.len() && forall|i: int|
            0 <= i < x@.len() ==> (#[trigger] x@[i])@ == y@[i]@,
        (JsonLeaf::Composite(x), JsonLeaf::Composite(y)) => x@ == y@,
        _ => false,
    }
}

#[verifier::loop_isolation(false)]
pub fn leaf_eq(a: &JsonLeaf, b: &JsonLeaf) -> (r: bool)
    ensures
        r == spec_leaf_eq(*a, *b),
{
    match (a, b) {
        (JsonLeaf::Null, JsonLeaf::Null) => true,
        (JsonLeaf::Bool(x), JsonLeaf::Bool(y)) => *x == *y,
        (JsonLeaf::Number(x), JsonLeaf::Number(y)) => *x == *y,
        (JsonLeaf::Str(x), JsonLeaf::Str(y)) => *x == *y,
        (JsonLeaf::Strings(x), JsonLeaf::Strings(y)) => {
            if x.len() != y.len() {
                return false;
            }
            let mut i: usize = 0;
            while i < x.len()
                invariant
                    x@.len() == y@.len(),
                    i <= x@.len(),
                    forall|k: int| 0 <= k < i ==> (#[trigger] x@[k])@ == y@[k]@,
                decreases x@.len() - i,
            {
                if x[i] != y[i] {
                    assert(!((x@[i as int])@ == y@[i as int]@));
                    return false;
                }
                i = i + 1;
            }
            true
        },
        (JsonLeaf::Composite(x), JsonLeaf::Composite(y)) => *x == *y,
        _ => false,
    }
}

/// The value of the first field named `key`.
pub open spec fn spec_leaf_field(entries: Seq<LeafEntry>, key: Seq<char>) -> Option<JsonLeaf>
    decreases entries.len(),
{
    if entries.len() == 0 {
        None
    } else if entries[0].key@ == key {
        Some(entries[0].value)
    } else {
        spec_leaf_field(entries.drop_first(), key)
    }
}

fn leaf_field<'a>(entries: &'a Vec<LeafEntry>, key: &str) -> (r: Option<&'a JsonLeaf>)
    ensures
        opt_leaf(r) == spec_leaf_field(entries@, key@),
{
    let mut i: usize = 0;
    assert(entries@.skip(0) =~= entries@);
    while i < entries.len()
        invariant
            i <= entries@.len(),
            spec_leaf_field(entries@, key@) == spec_leaf_field(entries@.skip(i as int), key@),
        decreases entries@.len() - i,
    {
        proof {
            assert(entries@.skip(i as int).drop_first() =~= entries@.skip(i + 1));
            assert(entries@.skip(i as int)[0] == entries@[i as int]);
        }
        if str_eq(entries[i].key.as_str(), key) {
            return Some(&entries[i].value);
        }
        i = i + 1;
    }
    None
}

/// The value of the first field named `key` of a record.
pub open spec fn spec_node_field(entries: Seq<NodeEntry>, key: Seq<char>) -> Option<JsonNode>
    decreases entries.len(),
{
    if entries.len() == 0 {
        None
    } else if entries[0].key@ == key {
        Some(entries[0].value)
    } else {
        spec_node_field(entries.drop_first(), key)
    }
}

pub open spec fn spec_doc_field(doc: JsonDoc, key: Seq<char>) -> Option<JsonNode> {
    match doc {
        JsonDoc::Null => None,
        JsonDoc::Record(entries) => spec_node_field(entries@, key),
    }
}

/// The field `key` of a viewed record, if the record has it.
#[verifier::loop_isolation(false)]
pub fn doc_field<'a>(doc: &'a JsonDoc, key: &str) -> (r: Option<&'a JsonNode>)
    ensures
        opt_node(r) == spec_doc_field(*doc, key@),
{
    let entries = match doc {
        JsonDoc::Null => {
            return None;
        },
        JsonDoc::Record(entries) => entries,
    };
    let mut i: usize = 0;
    assert(entries@.skip(0) =~= entries@);
    while i < entries.len()
        invariant
            i <= entries@.len(),
            spec_node_field(entries@, key@) == spec_node_field(entries@.skip(i as int), key@),
        decreases entries@.len() - i,
    {
        proof {
            assert(entries@.skip(i as int).drop_first() =~= entries@.skip(i + 1));
            assert(entries@.skip(i as int)[0] == entries@[i as int]);
        }
        if str_eq(entries[i].key.as_str(), key) {
            return Some(&entries[i].value);
        }
        i = i + 1;
    }
    None
}

pub open spec fn opt_leaf(o: Option<&JsonLeaf>) -> Option<JsonLeaf> {
    match o {
        Some(x) => Some(*x),
        None => None,
    }
}

pub open spec fn opt_node(o: Option<&JsonNode>) -> Option<JsonNode> {
    match o {
        Some(x) => Some(*x),
        None => None,
    }
}

pub fn str_eq(a: &str, b: &str) -> (r: bool)
    ensures
        r == (a@ == b@),
{
    let n = a.unicode_len();
    if n != b.unicode_len() {
        return false;
    }
    let mut i: usize = 0;
    while i < n
        invariant
            n == a@.len(),
            n == b@.len(),
            i <= n,
            forall|k: int| 0 <= k < i ==> a@[k] == b@[k],
        decreases n - i,
    {
        if a.get_char(i) != b.get_char(i) {
            return false;
        }
        i = i + 1;
    }
    assert(a@ =~= b@);
    true
}

/// The text of a string field of a record.
pub open spec fn spec_str_field(doc: JsonDoc, key: Seq<char>) -> Option<Seq<char>> {
    match spec_doc_field(doc, key) {
        Some(JsonNode::Leaf(JsonLeaf::Str(s))) => Some(s@),
        _ => None,
    }
}

pub fn str_field<'a>(doc: &'a JsonDoc, key: &str) -> (r: Option<&'a str>)
    ensures
        match r {
            Some(s) => spec_str_field(*doc, key@) == Some(s@),
            None => spec_str_field(*doc, key@) is None,
        },
{
    match doc_field(doc, key) {
        Some(JsonNode::Leaf(JsonLeaf::Str(s))) => Some(s.as_str()),
        _ => None,
    }
}

/// A field that does not hold the configured text.
#[derive(Debug)]
pub struct FieldMismatch {
    pub field: String,
    pub expected: Option<String>,
    pub actual: Option<String>,
}

/// The string field `field` must hold `expected` (or be absent or not a string when `expected`
/// is `None`).
pub fn assert_optional_string_field(doc: &JsonDoc, field: &str, expected: Option<&str>) -> (r: Result<
    (),
    FieldMismatch,
>)
    ensures
        r is Ok <==> match expected {
            Some(e) => spec_str_field(*doc, field@) == Some(e@),
            None => spec_str_field(*doc, field@) is None,
        },
        r matches Err(m) ==> m.field@ == field@,
{
    let actual = str_field(doc, field);
    let same = match (actual, expected) {
        (Some(a), Some(e)) => str_eq(a, e),
        (None, None) => true,
        _ => false,
    };
    if same {
        Ok(())
    } else {
        Err(
            FieldMismatch {
                field: field.to_owned(),
                expected: match expected {
                    Some(e) => Some(e.to_owned()),
                    None => None,
                },
                actual: match actual {
                    Some(a) => Some(a.to_owned()),
                    None => None,
                },
            },
        )
    }
}

pub fn assert_string_field(doc: &JsonDoc, field: &str, expected: &str) -> (r: Result<(), FieldMismatch>)
    ensures
        r is Ok <==> spec_str_field(*doc, field@) == Some(expected@),
        r matches Err(m) ==> m.field@ == field@,
{
    assert_optional_string_field(doc, field, Some(expected))
}

/// Catalog records must be active.
pub fn assert_active_status(doc: &JsonDoc) -> (r: Result<(), FieldMismatch>)
    ensures
        r is Ok <==> spec_str_field(*doc, "status"@) == Some("Active"@),
        r matches Err(m) ==> m.field@ == "status"@,
{
    assert_string_field(doc, "status", "Active")
}

/// Price metadata in canonical form: exactly its two known fields.
#[derive(Debug)]
pub struct CanonicalMetadata {
    pub farm_reward_rate: JsonLeaf,
    pub max_amount: JsonLeaf,
}

/// Why metadata is refused.
#[derive(Debug)]
pub enum MetadataError {
    /// A field other than `max_amount` and `farm_reward_rate`.
    UnsupportedField(String),
    /// Neither null nor an object.
    NotObject,
    /// Configuration without metadata would clear stored metadata.
    CannotClear,
}

pub open spec fn spec_known_metadata_key(k: Seq<char>) -> bool {
    k == "max_amount"@ || k == "farm_reward_rate"@
}

/// A field missing from an object reads as null.
pub open spec fn spec_field_or_null(entries: Seq<LeafEntry>, key: Seq<char>) -> JsonLeaf {
    match spec_leaf_field(entries, key) {
        Some(v) => v,
        None => JsonLeaf::Null,
    }
}

/// Canonical metadata: null or absent reads as none; an object with only the known fields reads
/// as both fields (null when missing).
pub open spec fn spec_canonical_ok(value: Option<JsonNode>) -> bool {
    match value {
        None => true,
        Some(JsonNode::Leaf(JsonLeaf::Null)) => true,
        Some(JsonNode::Object(entries)) => forall|i: int|
            0 <= i < entries@.len() ==> spec_known_metadata_key((#[trigger] entries@[i]).key@),
        _ => false,
    }
}

/// `e` is why `value` is refused as metadata: a leaf other than null is not an object, and an
/// object is refused for its first field that is not a known one.
pub open spec fn spec_metadata_refusal(value: Option<JsonNode>, e: MetadataError) -> bool {
    match e {
        MetadataError::NotObject => value matches Some(JsonNode::Leaf(l)) && !(l is Null),
        MetadataError::UnsupportedField(k) => value matches Some(JsonNode::Object(entries))
            && exists|i: int|
            0 <= i < entries@.len() && (#[trigger] entries@[i]).key@ == k@ && !spec_known_metadata_key(
                k@,
            ) && forall|j: int| 0 <= j < i ==> spec_known_metadata_key((#[trigger] entries@[j]).key@),
        MetadataError::CannotClear => false,
    }
}

/// A copy of the texts, element by element.
pub fn copy_strings(v: &Vec<String>) -> (out: Vec<String>)
    ensures
        out@.len() == v@.len(),
        forall|k: int| 0 <= k < v@.len() ==> (#[trigger] out@[k])@ == v@[k]@,
{
    let mut out: Vec<String> = Vec::new();
    let mut i: usize = 0;
    while i < v.len()
        invariant
            i <= v@.len(),
            out@.len() == i,
            forall|k: int| 0 <= k < i ==> (#[trigger] out@[k])@ == v@[k]@,
        decreases v@.len() - i,
    {
        out.push(v[i].clone());
        i = i + 1;
    }
    out
}

fn copy_leaf(v: &JsonLeaf) -> (r: JsonLeaf)
    ensures
        spec_leaf_eq(r, *v),
        spec_leaf_eq(*v, r),
{
    match v {
        JsonLeaf::Null => JsonLeaf::Null,
        JsonLeaf::Bool(b) => JsonLeaf::Bool(*b),
        JsonLeaf::Number(s) => JsonLeaf::Number(s.clone()),
        JsonLeaf::Str(s) => JsonLeaf::Str(s.clone()),
        JsonLeaf::Strings(v) => JsonLeaf::Strings(copy_strings(v)),
        JsonLeaf::Composite(s) => JsonLeaf::Composite(s.clone()),
    }
}

/// Reads metadata in canonical form (`None` for null or absent).
#[verifier::loop_isolation(false)]
pub fn canonical_metadata_value(value: Option<&JsonNode>) -> (r: Result<Option<CanonicalMetadata>, MetadataError>)
    ensures
        r is Ok <==> spec_canonical_ok(opt_node(value)),
        r matches Ok(None) ==> (value is None || opt_node(value) == Some(JsonNode::Leaf(JsonLeaf::Null))),
        r matches Ok(Some(c)) ==> (opt_node(value) matches Some(JsonNode::Object(entries))
            && spec_leaf_eq(c.max_amount, spec_field_or_null(entries@, "max_amount"@))
            && spec_leaf_eq(c.farm_reward_rate, spec_field_or_null(entries@, "farm_reward_rate"@))),
        r matches Err(MetadataError::UnsupportedField(k)) ==> !spec_known_metadata_key(k@),
        r matches Err(e) ==> !(e is CannotClear),
        r matches Err(e) ==> spec_metadata_refusal(opt_node(value), e),
{
    let node = match value {
        None => {
            return Ok(None);
        },
        Some(n) => n,
    };
    match node {
        JsonNode::Leaf(JsonLeaf::Null) => Ok(None),
        JsonNode::Leaf(_) => Err(MetadataError::NotObject),
        JsonNode::Object(entries) => {
            let mut i: usize = 0;
            while i < entries.len()
                invariant
                    i <= entries@.len(),
                    forall|k: int| 0 <= k < i ==> spec_known_metadata_key((#[trigger] entries@[k]).key@),
                decreases entries@.len() - i,
            {
                let k = entries[i].key.as_str();
                if !(str_eq(k, "max_amount") || str_eq(k, "farm_reward_rate")) {
                    assert(!spec_known_metadata_key(entries@[i as int].key@));
                    return Err(MetadataError::UnsupportedField(entries[i].key.clone()));
                }
                i = i + 1;
            }
            let max_amount = match leaf_field(entries, "max_amount") {
                Some(v) => copy_leaf(v),
                None => JsonLeaf::Null,
            };
            let farm_reward_rate = match leaf_field(entries, "farm_reward_rate") {
                Some(v) => copy_leaf(v),
                None => JsonLeaf::Null,
            };
            Ok(Some(CanonicalMetadata { farm_reward_rate, max_amount }))
        },
    }
}

/// Metadata read in canonical form, field by field (for well-formed metadata).
pub open spec fn spec_canonical(value: Option<JsonNode>) -> Option<CanonicalMetadata> {
    match value {
        Some(JsonNode::Object(entries)) => Some(
            CanonicalMetadata {
                farm_reward_rate: spec_field_or_null(entries@, "farm_reward_rate"@),
                max_amount: spec_field_or_null(entries@, "max_amount"@),
            },
        ),
        _ => None,
    }
}

/// Two canonical metadata values are the same JSON.
pub open spec fn spec_canon_eq(a: Option<CanonicalMetadata>, b: Option<CanonicalMetadata>) -> bool {
    match (a, b) {
        (None, None) => true,
        (Some(x), Some(y)) => spec_leaf_eq(x.farm_reward_rate, y.farm_reward_rate) && spec_leaf_eq(
            x.max_amount,
            y.max_amount,
        ),
        _ => false,
    }
}

pub open spec fn spec_leaf_is_null(v: JsonLeaf) -> bool {
    v is Null
}

/// The metadata an edit sends: the configured metadata in canonical form, keeping the stored
/// farm reward rate when the configuration leaves it null. Clearing stored metadata is refused.
pub open spec fn spec_metadata_update(stored: JsonDoc, expected: Option<JsonNode>) -> Option<
    Result<Option<CanonicalMetadata>, ()>,
> {
    let actual_value = spec_doc_field(stored, "metadata"@);
    if !spec_canonical_ok(actual_value) || !spec_canonical_ok(expected) {
        None
    } else {
        let a = spec_canonical(actual_value);
        let e = spec_canonical(expected);
        if a is Some && e is None {
            Some(Err(()))
        } else {
            match (a, e) {
                (Some(x), Some(y)) => if spec_leaf_is_null(y.farm_reward_rate) && !spec_leaf_is_null(
                    x.farm_reward_rate,
                ) {
                    Some(Ok(Some(CanonicalMetadata { farm_reward_rate: x.farm_reward_rate, ..y })))
                } else {
                    Some(Ok(e))
                },
                _ => Some(Ok(e)),
            }
        }
    }
}

fn copy_canonical(c: &CanonicalMetadata) -> (r: CanonicalMetadata)
    ensures
        spec_canon_eq(Some(r), Some(*c)),
{
    CanonicalMetadata { farm_reward_rate: copy_leaf(&c.farm_reward_rate), max_amount: copy_leaf(&c.max_amount) }
}

proof fn lemma_leaf_eq_refl(v: JsonLeaf)
    ensures
        spec_leaf_eq(v, v),
{
}

proof fn lemma_leaf_eq_trans(a: JsonLeaf, b: JsonLeaf, c: JsonLeaf)
    requires
        spec_leaf_eq(a, b),
        spec_leaf_eq(b, c),
    ensures
        spec_leaf_eq(a, c),
{
    match (a, b, c) {
        (JsonLeaf::Strings(x), JsonLeaf::Strings(y), JsonLeaf::Strings(z)) => {
            assert forall|i: int| 0 <= i < x@.len() implies (#[trigger] x@[i])@ == z@[i]@ by {
                assert(x@[i]@ == y@[i]@);
            }
        },
        _ => {},
    }
}

proof fn lemma_leaf_eq_sym(a: JsonLeaf, b: JsonLeaf)
    requires
        spec_leaf_eq(a, b),
    ensures
        spec_leaf_eq(b, a),
{
    match (a, b) {
        (JsonLeaf::Strings(x), JsonLeaf::Strings(y)) => {
            assert forall|i: int| 0 <= i < y@.len() implies (#[trigger] y@[i])@ == x@[i]@ by {
                assert(x@[i]@ == y@[i]@);
            }
        },
        _ => {},
    }
}

/// Computes the metadata an edit sends (`None` for JSON null).
pub fn price_metadata_update(stored: &JsonDoc, expected: Option<&JsonNode>) -> (r: Result<
    Option<CanonicalMetadata>,
    MetadataError,
>)
    ensures
        spec_metadata_update(*stored, opt_node(expected)) is None <==> (r matches Err(e) && !(e is CannotClear)),
        spec_metadata_update(*stored, opt_node(expected)) == Some(Err::<Option<CanonicalMetadata>, ()>(())) <==> (
        r matches Err(e) && e is CannotClear),
        r matches Ok(u) ==> spec_metadata_update(*stored, opt_node(expected)) matches Some(Ok(w))
            && spec_canon_eq(u, w),
{
    let actual = match canonical_metadata_value(doc_field(stored, "metadata")) {
        Ok(a) => a,
        Err(e) => {
            return Err(e);
        },
    };
    let exp = match canonical_metadata_value(expected) {
        Ok(e) => e,
        Err(e) => {
            return Err(e);
        },
    };
    if actual.is_some() && exp.is_none() {
        return Err(MetadataError::CannotClear);
    }
    match (&actual, exp) {
        (Some(a), Some(mut e)) => {
            let keep = match (&e.farm_reward_rate, &a.farm_reward_rate) {
                (JsonLeaf::Null, JsonLeaf::Null) => false,
                (JsonLeaf::Null, _) => true,
                _ => false,
            };
            if keep {
                e.farm_reward_rate = copy_leaf(&a.farm_reward_rate);
                proof {
                    lemma_leaf_eq_sym(a.farm_reward_rate, e.farm_reward_rate);
                }
            }
            proof {
                lemma_leaf_eq_refl(e.max_amount);
                lemma_leaf_eq_refl(e.farm_reward_rate);
            }
            Ok(Some(e))
        },
        (_, e) => Ok(e),
    }
}

/// What an edit would leave stored, compared with what is stored: `None` when the edit is refused.
pub open spec fn spec_update_or_none(stored: JsonDoc, expected: Option<JsonNode>) -> Option<CanonicalMetadata> {
    match spec_metadata_update(stored, expected) {
        Some(Ok(w)) => w,
        _ => None,
    }
}

/// Stored metadata matches the configuration: stored metadata is well formed and equals, in
/// canonical form, what an edit with the configured metadata would send.
pub open spec fn spec_metadata_matches(stored: JsonDoc, expected: Option<JsonNode>) -> bool {
    let actual_value = spec_doc_field(stored, "metadata"@);
    spec_canonical_ok(actual_value) && spec_canon_eq(
        spec_update_or_none(stored, expected),
        spec_canonical(actual_value),
    )
}

fn canon_eq(a: &Option<CanonicalMetadata>, b: &Option<CanonicalMetadata>) -> (r: bool)
    ensures
        r == spec_canon_eq(*a, *b),
{
    match (a, b) {
        (None, None) => true,
        (Some(x), Some(y)) => leaf_eq(&x.farm_reward_rate, &y.farm_reward_rate) && leaf_eq(
            &x.max_amount,
            &y.max_amount,
        ),
        _ => false,
    }
}

proof fn lemma_canon_eq_trans(
    a: Option<CanonicalMetadata>,
    b: Option<CanonicalMetadata>,
    c: Option<CanonicalMetadata>,
)
    requires
        spec_canon_eq(a, b),
        spec_canon_eq(b, c),
    ensures
        spec_canon_eq(a, c),
{
    match (a, b, c) {
        (Some(x), Some(y), Some(z)) => {
            lemma_leaf_eq_trans(x.farm_reward_rate, y.farm_reward_rate, z.farm_reward_rate);
            lemma_leaf_eq_trans(x.max_amount, y.max_amount, z.max_amount);
        },
        _ => {},
    }
}

proof fn lemma_canon_eq_sym(a: Option<CanonicalMetadata>, b: Option<CanonicalMetadata>)
    requires
        spec_canon_eq(a, b),
    ensures
        spec_canon_eq(b, a),
{
    match (a, b) {
        (Some(x), Some(y)) => {
            lemma_leaf_eq_sym(x.farm_reward_rate, y.farm_reward_rate);
            lemma_leaf_eq_sym(x.max_amount, y.max_amount);
        },
        _ => {},
    }
}

/// Whether the stored price metadata already matches the configured metadata.
pub fn metadata_matches(stored: &JsonDoc, expected: Option<&JsonNode>) -> (r: bool)
    ensures
        r == spec_metadata_matches(*stored, opt_node(expected)),
{
    let stored_value = doc_field(stored, "metadata");
    let actual = match canonical_metadata_value(stored_value) {
        Ok(a) => a,
        Err(_) => {
            return false;
        },
    };
    let ghost actual_value = opt_node(stored_value);
    let update = match price_metadata_update(stored, expected) {
        Ok(u) => u,
        Err(_) => None,
    };
    let ghost w = spec_update_or_none(*stored, opt_node(expected));
    let r = canon_eq(&update, &actual);
    proof {
        assert(spec_canon_eq(update, w));
        assert(spec_canon_eq(actual, spec_canonical(actual_value)));
        if r {
            lemma_canon_eq_sym(update, w);
            lemma_canon_eq_trans(w, update, actual);
            lemma_canon_eq_trans(w, actual, spec_canonical(actual_value));
        } else {
            if spec_canon_eq(w, spec_canonical(actual_value)) {
                lemma_canon_eq_sym(actual, spec_canonical(actual_value));
                lemma_canon_eq_trans(update, w, spec_canonical(actual_value));
                lemma_canon_eq_trans(update, spec_canonical(actual_value), actual);
            }
        }
    }
    r
}

/// Well-formed stored metadata matches itself as the configuration.
pub proof fn lemma_metadata_matches_itself(stored: JsonDoc)
    requires
        spec_canonical_ok(spec_doc_field(stored, "metadata"@)),
    ensures
        spec_metadata_matches(stored, spec_doc_field(stored, "metadata"@)),
{
    let c = spec_canonical(spec_doc_field(stored, "metadata"@));
    match c {
        Some(x) => {
            lemma_leaf_eq_refl(x.farm_reward_rate);
            lemma_leaf_eq_refl(x.max_amount);
        },
        None => {},
    }
}

/// Once the metadata an edit sends is stored, the stored metadata matches the configuration:
/// `stored` is the price before the edit, `edited` after it.
pub proof fn lemma_metadata_update_then_matches(
    stored: JsonDoc,
    edited: JsonDoc,
    expected: Option<JsonNode>,
    sent: Option<CanonicalMetadata>,
)
    requires
        spec_metadata_update(stored, expected) == Some(Ok::<Option<CanonicalMetadata>, ()>(sent)),
        spec_canonical_ok(spec_doc_field(edited, "metadata"@)),
        spec_canon_eq(spec_canonical(spec_doc_field(edited, "metadata"@)), sent),
    ensures
        spec_metadata_matches(edited, expected),
{
    let a2 = spec_canonical(spec_doc_field(edited, "metadata"@));
    let e = spec_canonical(expected);
    let w2 = spec_update_or_none(edited, expected);
    match (a2, e) {
        (Some(x2), Some(y)) => {
            lemma_leaf_eq_refl(x2.farm_reward_rate);
            lemma_leaf_eq_refl(y.max_amount);
            lemma_leaf_eq_refl(y.farm_reward_rate);
            let s = sent.unwrap();
            lemma_leaf_eq_sym(x2.max_amount, s.max_amount);
            lemma_leaf_eq_sym(x2.farm_reward_rate, s.farm_reward_rate);
            if !(spec_leaf_is_null(y.farm_reward_rate) && !spec_leaf_is_null(x2.farm_reward_rate)) {
                if spec_leaf_is_null(y.farm_reward_rate) {
                    assert(spec_leaf_is_null(x2.farm_reward_rate));
                } else {
                    lemma_leaf_eq_sym(s.farm_reward_rate, x2.farm_reward_rate);
                    lemma_leaf_eq_sym(y.farm_reward_rate, s.farm_reward_rate);
                }
            }
        },
        _ => {},
    }
}

} // verus!
