//! A JSON document as the library holds it, and the trusted parse boundary.
//!
//! The upstream API speaks JSON. Parsing the raw text is the `serde_json`
//! crate's job, behind trusted wrappers; everything after the parse — shape
//! checks, field lookup, coercion into records — works on [`JsonValue`], a
//! tree of plain values that the verifier can reason about. [`JsonModel`] is
//! the mathematical shape of such a tree, used in contracts.

use vstd::prelude::*;

verus! {

/// A parsed JSON document.
///
/// Numbers in the responses this library consumes are whole minor-currency
/// units, so a number is held as an `i64`; a number that does not fit
/// (too large, or not an integer) is kept as [`JsonValue::BigNum`] and is
/// rejected by every decoder that expects an integer.
#[derive(Debug)]
pub enum JsonValue {
    /// JSON `null`.
    Null,
    /// A JSON boolean.
    Bool(bool),
    /// A JSON number that is an integer fitting in an `i64`.
    Int(i64),
    /// Any other JSON number.
    BigNum,
    /// A JSON string.
    Str(String),
    /// A JSON array.
    Arr(Vec<JsonValue>),
    /// A JSON object, as its key/value pairs in document order.
    Obj(Vec<(String, JsonValue)>),
}

/// The mathematical shape of a JSON document.
pub enum JsonModel {
    /// JSON `null`.
    Null,
    /// A JSON boolean.
    Bool(bool),
    /// A JSON number that fits in an `i64`.
    Int(i64),
    /// Any other JSON number.
    BigNum,
    /// A JSON string.
    Str(Seq<char>),
    /// A JSON array.
    Arr(Seq<JsonModel>),
    /// A JSON object: its key/value pairs in document order.
    Obj(Seq<(Seq<char>, JsonModel)>),
}

/// The model of a [`JsonValue`]: the same tree with strings and vectors
/// replaced by their views.
pub open spec fn json_model(v: JsonValue) -> JsonModel
    decreases v,
{
    match v {
        JsonValue::Null => JsonModel::Null,
        JsonValue::Bool(b) => JsonModel::Bool(b),
        JsonValue::Int(i) => JsonModel::Int(i),
        JsonValue::BigNum => JsonModel::BigNum,
        JsonValue::Str(s) => JsonModel::Str(s@),
        JsonValue::Arr(a) => JsonModel::Arr(
            Seq::new(
                a.len() as nat,
                |i: int|
                    if 0 <= i < a.len() {
                        json_model(a[i])
                    } else {
                        JsonModel::Null
                    },
            ),
        ),
        JsonValue::Obj(m) => JsonModel::Obj(
            Seq::new(
                m.len() as nat,
                |i: int|
                    if 0 <= i < m.len() {
                        (m[i].0@, json_model(m[i].1))
                    } else {
                        (Seq::empty(), JsonModel::Null)
                    },
            ),
        ),
    }
}

impl View for JsonValue {
    type V = JsonModel;

    open spec fn view(&self) -> JsonModel {
        json_model(*self)
    }
}

/// The models of a sequence of JSON values, elementwise.
pub open spec fn arr_model(a: Seq<JsonValue>) -> Seq<JsonModel> {
    Seq::new(a.len(), |i: int| json_model(a[i]))
}

/// The models of a sequence of key/value pairs, elementwise.
pub open spec fn pairs_model(m: Seq<(String, JsonValue)>) -> Seq<(Seq<char>, JsonModel)> {
    Seq::new(m.len(), |i: int| (m[i].0@, json_model(m[i].1)))
}

/// The model of an array value is the elementwise model of its elements.
pub proof fn lemma_arr_model(a: Vec<JsonValue>)
    ensures
        json_model(JsonValue::Arr(a)) == JsonModel::Arr(arr_model(a@)),
{
    let s = json_model(JsonValue::Arr(a))->Arr_0;
    assert(s =~= arr_model(a@));
}

/// The model of an object value is the elementwise model of its pairs.
pub proof fn lemma_pairs_model(m: Vec<(String, JsonValue)>)
    ensures
        json_model(JsonValue::Obj(m)) == JsonModel::Obj(pairs_model(m@)),
{
    let s = json_model(JsonValue::Obj(m))->Obj_0;
    assert(s =~= pairs_model(m@));
}

/// A well-formed document: every object has pairwise distinct keys.
/// Parsing yields only well-formed documents.
pub open spec fn json_wf(v: JsonModel) -> bool
    decreases v,
{
    match v {
        JsonModel::Arr(a) => forall|i: int| 0 <= i < a.len() ==> json_wf(#[trigger] a[i]),
        JsonModel::Obj(m) => (forall|i: int, j: int|
            0 <= i < j < m.len() ==> m[i].0 != m[j].0) && (forall|i: int|
            0 <= i < m.len() ==> json_wf((#[trigger] m[i]).1)),
        _ => true,
    }
}

/// What well-formedness says of an object: distinct keys, well-formed
/// values.
pub proof fn lemma_json_wf_obj(m: Seq<(Seq<char>, JsonModel)>)
    requires
        json_wf(JsonModel::Obj(m)),
    ensures
        forall|i: int, j: int| 0 <= i < j < m.len() ==> m[i].0 != m[j].0,
        forall|i: int| 0 <= i < m.len() ==> json_wf((#[trigger] m[i]).1),
{
    assert(JsonModel::Obj(m)->Obj_0 == m);
}

/// An object with distinct keys and well-formed values is well-formed.
pub proof fn lemma_json_wf_obj_intro(m: Seq<(Seq<char>, JsonModel)>)
    requires
        forall|i: int, j: int| 0 <= i < j < m.len() ==> m[i].0 != m[j].0,
        forall|i: int| 0 <= i < m.len() ==> json_wf((#[trigger] m[i]).1),
    ensures
        json_wf(JsonModel::Obj(m)),
{
    assert(JsonModel::Obj(m)->Obj_0 == m);
}

/// What well-formedness says of an array: well-formed elements.
pub proof fn lemma_json_wf_arr(a: Seq<JsonModel>)
    requires
        json_wf(JsonModel::Arr(a)),
    ensures
        forall|i: int| 0 <= i < a.len() ==> json_wf(#[trigger] a[i]),
{
    assert(JsonModel::Arr(a)->Arr_0 == a);
}

/// The value under the first occurrence of `key` in an object's pairs,
/// or `None` when no pair carries that key.
pub open spec fn lookup(obj: Seq<(Seq<char>, JsonModel)>, key: Seq<char>) -> Option<JsonModel>
    decreases obj.len(),
{
    if obj.len() == 0 {
        None
    } else if obj[0].0 == key {
        Some(obj[0].1)
    } else {
        lookup(obj.drop_first(), key)
    }
}

/// A lookup finds the entry at `k` when no earlier entry carries its key.
pub proof fn lemma_lookup_at(obj: Seq<(Seq<char>, JsonModel)>, key: Seq<char>, k: int)
    requires
        0 <= k < obj.len(),
        obj[k].0 == key,
        forall|j: int| 0 <= j < k ==> obj[j].0 != key,
    ensures
        lookup(obj, key) == Some(obj[k].1),
    decreases k,
{
    if k > 0 {
        assert forall|j: int| 0 <= j < k - 1 implies (#[trigger] obj.drop_first()[j]).0
            != key by {
            assert(obj.drop_first()[j] == obj[j + 1]);
        }
        lemma_lookup_at(obj.drop_first(), key, k - 1);
    }
}

/// When the first `i` keys all miss, the lookup is decided by the rest.
proof fn lemma_lookup_skip(obj: Seq<(Seq<char>, JsonModel)>, key: Seq<char>, i: int)
    requires
        0 <= i <= obj.len(),
        forall|j: int| 0 <= j < i ==> obj[j].0 != key,
    ensures
        lookup(obj, key) == lookup(obj.skip(i), key),
    decreases i,
{
    if i == 0 {
        assert(obj.skip(0) =~= obj);
    } else {
        assert(forall|j: int|
            0 <= j < i - 1 ==> (#[trigger] obj.drop_first()[j]).0 == obj[j + 1].0);
        lemma_lookup_skip(obj.drop_first(), key, i - 1);
        assert(obj.drop_first().skip(i - 1) =~= obj.skip(i));
    }
}

/// The value under the first occurrence of `key`, by linear search.
pub fn lookup_field<'a>(pairs: &'a Vec<(String, JsonValue)>, key: &String) -> (r: Option<
    &'a JsonValue,
>)
    ensures
        match r {
            Some(v) => lookup(pairs_model(pairs@), key@) == Some(json_model(*v)),
            None => lookup(pairs_model(pairs@), key@) is None,
        },
{
    let ghost obj = pairs_model(pairs@);
    let mut i: usize = 0;
    while i < pairs.len()
        invariant
            0 <= i <= pairs.len(),
            obj == pairs_model(pairs@),
            obj.len() == pairs.len(),
            forall|j: int| 0 <= j < i ==> obj[j].0 != key@,
        decreases pairs.len() - i,
    {
        if pairs[i].0 == *key {
            proof {
                lemma_lookup_skip(obj, key@, i as int);
                assert(obj.skip(i as int)[0] == obj[i as int]);
                assert(obj[i as int] == (pairs@[i as int].0@, json_model(pairs@[i as int].1)));
            }
            return Some(&pairs[i].1);
        }
        proof {
            assert(obj[i as int] == (pairs@[i as int].0@, json_model(pairs@[i as int].1)));
        }
        i += 1;
    }
    proof {
        lemma_lookup_skip(obj, key@, i as int);
    }
    None
}

/// Declares `serde_json::Value`, the parser's own document type, so that the
/// trusted wrappers below can pass one along; it stays opaque here.
#[verifier::external_type_specification]
#[verifier::external_body]
pub struct ExSerdeValue(serde_json::Value);

/// What `serde_json::from_str::<serde_json::Value>` yields on a given body:
/// the parsed document, or the parse failure's message. The result depends
/// on the text alone.
pub uninterp spec fn json_parse(s: Seq<char>) -> Result<JsonModel, Seq<char>>;

/// What a `serde_json::Value` holds, as a [`JsonModel`].
pub uninterp spec fn value_model_of(v: serde_json::Value) -> JsonModel;

/// Relies on `serde_json::from_str::<serde_json::Value>`: a pure function of
/// the input text. Its objects are `serde_json::Map`s — `BTreeMap`s, so every
/// object of the parsed document has distinct keys. A failure's message comes
/// from `serde_json::Error`'s `Display` form.
#[verifier::external_body]
fn parse_document(s: &str) -> (r: Result<serde_json::Value, String>)
    ensures
        r is Ok <==> json_parse(s@) is Ok,
        r matches Ok(v) ==> json_parse(s@) matches Ok(m) && value_model_of(v) == m && json_wf(m),
        r matches Err(e) ==> json_parse(s@) matches Err(m) && e@ == m,
{
    match serde_json::from_str::<serde_json::Value>(s) {
        Ok(v) => Ok(v),
        Err(e) => Err(e.to_string()),
    }
}

/// Relies on `serde_json::Value`'s variants and `serde_json::Number::as_i64`
/// (`Some` exactly on integers that fit an `i64`) to rebuild the document as
/// the library's own tree, one variant to one variant.
#[verifier::external_body]
fn to_json_value(v: serde_json::Value) -> (r: JsonValue)
    ensures
        json_model(r) == value_model_of(v),
{
    match v {
        serde_json::Value::Null => JsonValue::Null,
        serde_json::Value::Bool(b) => JsonValue::Bool(b),
        serde_json::Value::Number(n) => match n.as_i64() {
            Some(i) => JsonValue::Int(i),
            None => JsonValue::BigNum,
        },
        serde_json::Value::String(s) => JsonValue::Str(s),
        serde_json::Value::Array(a) => JsonValue::Arr(a.into_iter().map(to_json_value).collect()),
        serde_json::Value::Object(m) => JsonValue::Obj(
            m.into_iter().map(|(k, x)| (k, to_json_value(x))).collect(),
        ),
    }
}

/// Parse a response body into the library's JSON tree, or return the parse
/// failure's message. Every object of a parsed document has distinct keys.
pub fn parse_json(s: &str) -> (r: Result<JsonValue, String>)
    ensures
        r is Ok <==> json_parse(s@) is Ok,
        r matches Ok(v) ==> json_parse(s@) matches Ok(m) && json_model(v) == m && json_wf(m),
        r matches Err(e) ==> json_parse(s@) matches Err(m) && e@ == m,
{
    match parse_document(s) {
        Ok(v) => Ok(to_json_value(v)),
        Err(e) => Err(e),
    }
}

} // verus!
