//! Decoding response bodies into records.
//!
//! A raw body plus the response's status code turn into either a typed
//! record or one of the failure kinds. The status decides the shape: 200 is
//! the only success status, and only then is the body decoded as the
//! endpoint's success shape; any other status decodes the body as the
//! all-fields-optional [`Error`] body. Fields documented as optional follow
//! the upstream convention that an empty string means "absent".

use vstd::prelude::*;

use crate::errors;
use crate::errors::DecodeFault;
use crate::errors::DecodeFaultModel;
use crate::errors::FailureModel;
use crate::json::JsonModel;
use crate::json::JsonValue;
use crate::json::arr_model;
use crate::json::json_model;
use crate::json::json_parse;
use crate::json::json_wf;
use crate::json::lemma_arr_model;
use crate::json::lemma_json_wf_arr;
use crate::json::lemma_json_wf_obj;
use crate::json::lemma_json_wf_obj_intro;
use crate::json::lemma_pairs_model;
use crate::json::lookup;
use crate::json::lookup_field;
use crate::json::pairs_model;
use crate::json::parse_json;
use crate::records::Account;
use crate::records::AccountModel;
use crate::records::Accounts;
use crate::records::Balance;
use crate::records::BalanceModel;
use crate::records::Error;
use crate::records::ErrorModel;
use crate::records::Pot;
use crate::records::PotModel;
use crate::records::PotsResponse;
use crate::records::Transaction;
use crate::records::TransactionModel;
use crate::records::TransactionResponse;
use crate::records::Transactions;
use crate::timestamp::Timestamp;
use crate::timestamp::parse_rfc3339;
use crate::timestamp::rfc3339_parse;

verus! {

/// The string under `key`, when present with that type.
pub open spec fn spec_str_field(obj: Seq<(Seq<char>, JsonModel)>, key: Seq<char>) -> Option<
    Seq<char>,
> {
    match lookup(obj, key) {
        Some(JsonModel::Str(s)) => Some(s),
        _ => None,
    }
}

/// The integer under `key`, when present with that type.
pub open spec fn spec_int_field(obj: Seq<(Seq<char>, JsonModel)>, key: Seq<char>) -> Option<i64> {
    match lookup(obj, key) {
        Some(JsonModel::Int(i)) => Some(i),
        _ => None,
    }
}

/// The boolean under `key`, when present with that type.
pub open spec fn spec_bool_field(obj: Seq<(Seq<char>, JsonModel)>, key: Seq<char>) -> Option<
    bool,
> {
    match lookup(obj, key) {
        Some(JsonModel::Bool(b)) => Some(b),
        _ => None,
    }
}

/// An optional string under `key`: an absent field and a JSON `null` both
/// resolve to an absent value; a string resolves to that string; anything
/// else fails the decode.
pub open spec fn spec_opt_str_field(obj: Seq<(Seq<char>, JsonModel)>, key: Seq<char>) -> Option<
    Option<Seq<char>>,
> {
    match lookup(obj, key) {
        None => Some(None),
        Some(JsonModel::Null) => Some(None),
        Some(JsonModel::Str(s)) => Some(Some(s)),
        Some(_) => None,
    }
}

/// The timestamp under `key`: the field must be present and hold a valid
/// RFC 3339 string.
pub open spec fn spec_timestamp_field(obj: Seq<(Seq<char>, JsonModel)>, key: Seq<char>) -> Option<
    Timestamp,
> {
    match lookup(obj, key) {
        Some(JsonModel::Str(s)) => rfc3339_parse(s),
        _ => None,
    }
}

/// The upstream "empty string means absent" convention for an optional
/// timestamp carried as a string: empty resolves to absent, a valid
/// timestamp to that timestamp, and anything else fails the decode.
pub open spec fn spec_none_for_empty_string(s: Seq<char>) -> Option<Option<Timestamp>> {
    if s.len() == 0 {
        Some(None)
    } else {
        match rfc3339_parse(s) {
            Some(t) => Some(Some(t)),
            None => None,
        }
    }
}

/// An optional timestamp under `key`, following the upstream convention: an
/// absent field and an empty string both resolve to an absent value; a
/// non-empty string must parse.
pub open spec fn spec_opt_timestamp_field(
    obj: Seq<(Seq<char>, JsonModel)>,
    key: Seq<char>,
) -> Option<Option<Timestamp>> {
    match lookup(obj, key) {
        None => Some(None),
        Some(JsonModel::Str(s)) => spec_none_for_empty_string(s),
        Some(_) => None,
    }
}

/// An object's pairs as a string-to-string mapping, when every value is a
/// string.
pub open spec fn spec_string_pairs(m: Seq<(Seq<char>, JsonModel)>) -> Option<
    Seq<(Seq<char>, Seq<char>)>,
> {
    if forall|i: int| 0 <= i < m.len() ==> (#[trigger] m[i]).1 is Str {
        Some(Seq::new(m.len(), |i: int| (m[i].0, m[i].1->Str_0)))
    } else {
        None
    }
}

/// The string-to-string mapping under `key`, when present as an object all
/// of whose values are strings.
pub open spec fn spec_string_map_field(
    obj: Seq<(Seq<char>, JsonModel)>,
    key: Seq<char>,
) -> Option<Seq<(Seq<char>, Seq<char>)>> {
    match lookup(obj, key) {
        Some(JsonModel::Obj(m)) => spec_string_pairs(m),
        _ => None,
    }
}

/// The string under `key`, by lookup.
fn str_field(pairs: &Vec<(String, JsonValue)>, key: &str) -> (r: Option<String>)
    ensures
        match r {
            Some(s) => spec_str_field(pairs_model(pairs@), key@) == Some(s@),
            None => spec_str_field(pairs_model(pairs@), key@) is None,
        },
{
    let k = String::from_str(key);
    match lookup_field(pairs, &k) {
        Some(JsonValue::Str(s)) => Some(s.clone()),
        _ => None,
    }
}

/// The integer under `key`, by lookup.
fn int_field(pairs: &Vec<(String, JsonValue)>, key: &str) -> (r: Option<i64>)
    ensures
        r == spec_int_field(pairs_model(pairs@), key@),
{
    let k = String::from_str(key);
    match lookup_field(pairs, &k) {
        Some(JsonValue::Int(i)) => Some(*i),
        _ => None,
    }
}

/// The boolean under `key`, by lookup.
fn bool_field(pairs: &Vec<(String, JsonValue)>, key: &str) -> (r: Option<bool>)
    ensures
        r == spec_bool_field(pairs_model(pairs@), key@),
{
    let k = String::from_str(key);
    match lookup_field(pairs, &k) {
        Some(JsonValue::Bool(b)) => Some(*b),
        _ => None,
    }
}

/// An optional string under `key`: absent and `null` both mean absent.
fn opt_str_field(pairs: &Vec<(String, JsonValue)>, key: &str) -> (r: Option<Option<String>>)
    ensures
        match r {
            Some(o) => spec_opt_str_field(pairs_model(pairs@), key@) == Some(o.deep_view()),
            None => spec_opt_str_field(pairs_model(pairs@), key@) is None,
        },
{
    let k = String::from_str(key);
    match lookup_field(pairs, &k) {
        None => Some(None),
        Some(JsonValue::Null) => Some(None),
        Some(JsonValue::Str(s)) => Some(Some(s.clone())),
        Some(_) => None,
    }
}

/// The timestamp under `key`; the field must be present and parse.
fn timestamp_field(pairs: &Vec<(String, JsonValue)>, key: &str) -> (r: Option<Timestamp>)
    ensures
        r == spec_timestamp_field(pairs_model(pairs@), key@),
        r matches Some(t) ==> t.wf(),
{
    let k = String::from_str(key);
    match lookup_field(pairs, &k) {
        Some(JsonValue::Str(s)) => parse_rfc3339(s.as_str()),
        _ => None,
    }
}

/// The upstream "empty string means absent" convention, applied once here
/// and reused by every optional field that follows it: an empty string
/// resolves to an absent value, and a non-empty string must parse as an
/// RFC 3339 timestamp.
pub fn none_for_empty_string(s: &str) -> (r: Option<Option<Timestamp>>)
    ensures
        r == spec_none_for_empty_string(s@),
        (match r {
            Some(Some(t)) => t.wf(),
            _ => true,
        }),
{
    if s.unicode_len() == 0 {
        Some(None)
    } else {
        match parse_rfc3339(s) {
            Some(t) => Some(Some(t)),
            None => None,
        }
    }
}

/// An optional timestamp under `key`, following the upstream convention.
fn opt_timestamp_field(pairs: &Vec<(String, JsonValue)>, key: &str) -> (r: Option<
    Option<Timestamp>,
>)
    ensures
        r == spec_opt_timestamp_field(pairs_model(pairs@), key@),
        (match r {
            Some(Some(t)) => t.wf(),
            _ => true,
        }),
{
    let k = String::from_str(key);
    match lookup_field(pairs, &k) {
        None => Some(None),
        Some(JsonValue::Str(s)) => none_for_empty_string(s.as_str()),
        Some(_) => None,
    }
}

/// The string-to-string mapping under `key`.
fn string_map_field(pairs: &Vec<(String, JsonValue)>, key: &str) -> (r: Option<
    Vec<(String, String)>,
>)
    ensures
        match r {
            Some(m) => spec_string_map_field(pairs_model(pairs@), key@) == Some(m.deep_view()),
            None => spec_string_map_field(pairs_model(pairs@), key@) is None,
        },
{
    let k = String::from_str(key);
    match lookup_field(pairs, &k) {
        Some(JsonValue::Obj(m)) => {
            proof {
                lemma_pairs_model(*m);
            }
            let ghost source = pairs_model(m@);
            let mut out: Vec<(String, String)> = Vec::new();
            let mut i: usize = 0;
            while i < m.len()
                invariant
                    0 <= i <= m.len(),
                    source == pairs_model(m@),
                    source.len() == m@.len(),
                    lookup(pairs_model(pairs@), key@) == Some(JsonModel::Obj(source)),
                    out.deep_view().len() == i,
                    forall|j: int| 0 <= j < i ==> (#[trigger] source[j]).1 is Str,
                    forall|j: int|
                        0 <= j < i ==> #[trigger] out.deep_view()[j] == (
                        source[j].0,
                        source[j].1->Str_0,
                        ),
                decreases m.len() - i,
            {
                proof {
                    assert(source[i as int] == (m@[i as int].0@, json_model(m@[i as int].1)));
                }
                match &m[i].1 {
                    JsonValue::Str(s) => {
                        let ghost prev = out.deep_view();
                        let ghost entry = (m@[i as int].0@, source[i as int].1->Str_0);
                        out.push((m[i].0.clone(), s.clone()));
                        proof {
                            assert(out.deep_view() =~= prev.push(entry));
                        }
                    },
                    _ => {
                        proof {
                            assert(!(source[i as int].1 is Str));
                            assert(spec_string_pairs(source) is None);
                        }
                        return None;
                    },
                }
                i += 1;
            }
            proof {
                let expected = spec_string_pairs(source)->0;
                assert(out.deep_view() =~= expected);
            }
            Some(out)
        },
        _ => None,
    }
}

/// What a balance body decodes to: an object with integer `balance` and
/// `spend_today` and a string `currency`.
pub open spec fn spec_decode_balance(v: JsonModel) -> Option<BalanceModel> {
    match v {
        JsonModel::Obj(obj) => if spec_int_field(obj, "balance"@) is Some && spec_str_field(
            obj,
            "currency"@,
        ) is Some && spec_int_field(obj, "spend_today"@) is Some {
            Some(
                BalanceModel {
                    balance: spec_int_field(obj, "balance"@)->0,
                    currency: spec_str_field(obj, "currency"@)->0,
                    spend_today: spec_int_field(obj, "spend_today"@)->0,
                },
            )
        } else {
            None
        },
        _ => None,
    }
}

/// Decode a balance body.
pub fn decode_balance(v: &JsonValue) -> (r: Option<Balance>)
    ensures
        match r {
            Some(b) => spec_decode_balance(v@) == Some(b@),
            None => spec_decode_balance(v@) is None,
        },
{
    match v {
        JsonValue::Obj(pairs) => {
            proof {
                lemma_pairs_model(*pairs);
            }
            let balance = match int_field(pairs, "balance") {
                Some(x) => x,
                None => {
                    return None;
                },
            };
            let currency = match str_field(pairs, "currency") {
                Some(x) => x,
                None => {
                    return None;
                },
            };
            let spend_today = match int_field(pairs, "spend_today") {
                Some(x) => x,
                None => {
                    return None;
                },
            };
            Some(Balance { balance, currency, spend_today })
        },
        _ => None,
    }
}

/// What an error body decodes to: an object whose four documented fields are
/// all optional; an absent or `null` field is an absent value, never a
/// failure.
pub open spec fn spec_decode_error_body(v: JsonModel) -> Option<ErrorModel> {
    match v {
        JsonModel::Obj(obj) => if spec_opt_str_field(obj, "code"@) is Some && spec_opt_str_field(
            obj,
            "error"@,
        ) is Some && spec_opt_str_field(obj, "error_description"@) is Some && spec_opt_str_field(
            obj,
            "message"@,
        ) is Some {
            Some(
                ErrorModel {
                    code: spec_opt_str_field(obj, "code"@)->0,
                    error: spec_opt_str_field(obj, "error"@)->0,
                    error_description: spec_opt_str_field(obj, "error_description"@)->0,
                    message: spec_opt_str_field(obj, "message"@)->0,
                },
            )
        } else {
            None
        },
        _ => None,
    }
}

/// Decode the error body sent with a non-success status.
pub fn decode_error_body(v: &JsonValue) -> (r: Option<Error>)
    ensures
        match r {
            Some(e) => spec_decode_error_body(v@) == Some(e@),
            None => spec_decode_error_body(v@) is None,
        },
{
    match v {
        JsonValue::Obj(pairs) => {
            proof {
                lemma_pairs_model(*pairs);
            }
            let code = match opt_str_field(pairs, "code") {
                Some(x) => x,
                None => {
                    return None;
                },
            };
            let error = match opt_str_field(pairs, "error") {
                Some(x) => x,
                None => {
                    return None;
                },
            };
            let error_description = match opt_str_field(pairs, "error_description") {
                Some(x) => x,
                None => {
                    return None;
                },
            };
            let message = match opt_str_field(pairs, "message") {
                Some(x) => x,
                None => {
                    return None;
                },
            };
            Some(Error { code, error, error_description, message })
        },
        _ => None,
    }
}

/// What an account body decodes to.
pub open spec fn spec_decode_account(v: JsonModel) -> Option<AccountModel> {
    match v {
        JsonModel::Obj(obj) => if spec_str_field(obj, "id"@) is Some && spec_str_field(
            obj,
            "description"@,
        ) is Some && spec_timestamp_field(obj, "created"@) is Some {
            Some(
                AccountModel {
                    id: spec_str_field(obj, "id"@)->0,
                    description: spec_str_field(obj, "description"@)->0,
                    created: spec_timestamp_field(obj, "created"@)->0,
                },
            )
        } else {
            None
        },
        _ => None,
    }
}

/// Decode an account body.
pub fn decode_account(v: &JsonValue) -> (r: Option<Account>)
    ensures
        match r {
            Some(a) => spec_decode_account(v@) == Some(a@),
            None => spec_decode_account(v@) is None,
        },
{
    match v {
        JsonValue::Obj(pairs) => {
            proof {
                lemma_pairs_model(*pairs);
            }
            let id = match str_field(pairs, "id") {
                Some(x) => x,
                None => {
                    return None;
                },
            };
            let description = match str_field(pairs, "description") {
                Some(x) => x,
                None => {
                    return None;
                },
            };
            let created = match timestamp_field(pairs, "created") {
                Some(x) => x,
                None => {
                    return None;
                },
            };
            Some(Account { id, description, created })
        },
        _ => None,
    }
}

/// What a pot body decodes to.
pub open spec fn spec_decode_pot(v: JsonModel) -> Option<PotModel> {
    match v {
        JsonModel::Obj(obj) => if spec_str_field(obj, "id"@) is Some && spec_str_field(
            obj,
            "name"@,
        ) is Some && spec_str_field(obj, "style"@) is Some && spec_int_field(obj, "balance"@)
            is Some && spec_str_field(obj, "currency"@) is Some && spec_timestamp_field(
            obj,
            "created"@,
        ) is Some && spec_timestamp_field(obj, "updated"@) is Some && spec_bool_field(
            obj,
            "deleted"@,
        ) is Some {
            Some(
                PotModel {
                    id: spec_str_field(obj, "id"@)->0,
                    name: spec_str_field(obj, "name"@)->0,
                    style: spec_str_field(obj, "style"@)->0,
                    balance: spec_int_field(obj, "balance"@)->0,
                    currency: spec_str_field(obj, "currency"@)->0,
                    created: spec_timestamp_field(obj, "created"@)->0,
                    updated: spec_timestamp_field(obj, "updated"@)->0,
                    deleted: spec_bool_field(obj, "deleted"@)->0,
                },
            )
        } else {
            None
        },
        _ => None,
    }
}

/// Decode a pot body.
pub fn decode_pot(v: &JsonValue) -> (r: Option<Pot>)
    ensures
        match r {
            Some(p) => spec_decode_pot(v@) == Some(p@),
            None => spec_decode_pot(v@) is None,
        },
{
    match v {
        JsonValue::Obj(pairs) => {
            proof {
                lemma_pairs_model(*pairs);
            }
            let id = match str_field(pairs, "id") {
                Some(x) => x,
                None => {
                    return None;
                },
            };
            let name = match str_field(pairs, "name") {
                Some(x) => x,
                None => {
                    return None;
                },
            };
            let style = match str_field(pairs, "style") {
                Some(x) => x,
                None => {
                    return None;
                },
            };
            let balance = match int_field(pairs, "balance") {
                Some(x) => x,
                None => {
                    return None;
                },
            };
            let currency = match str_field(pairs, "currency") {
                Some(x) => x,
                None => {
                    return None;
                },
            };
            let created = match timestamp_field(pairs, "created") {
                Some(x) => x,
                None => {
                    return None;
                },
            };
            let updated = match timestamp_field(pairs, "updated") {
                Some(x) => x,
                None => {
                    return None;
                },
            };
            let deleted = match bool_field(pairs, "deleted") {
                Some(x) => x,
                None => {
                    return None;
                },
            };
            Some(Pot { id, name, style, balance, currency, created, updated, deleted })
        },
        _ => None,
    }
}

/// What a transaction body decodes to. `merchant` and `decline_reason` are
/// optional (absent or `null` means absent); `settled` follows the
/// empty-string-means-absent convention; all other fields are required.
pub open spec fn spec_decode_transaction(v: JsonModel) -> Option<TransactionModel> {
    match v {
        JsonModel::Obj(obj) => if spec_int_field(obj, "account_balance"@) is Some
            && spec_int_field(obj, "amount"@) is Some && spec_timestamp_field(obj, "created"@)
            is Some && spec_str_field(obj, "currency"@) is Some && spec_str_field(
            obj,
            "description"@,
        ) is Some && spec_str_field(obj, "id"@) is Some && spec_opt_str_field(obj, "merchant"@)
            is Some && spec_string_map_field(obj, "metadata"@) is Some && spec_str_field(
            obj,
            "notes"@,
        ) is Some && spec_bool_field(obj, "is_load"@) is Some && spec_opt_timestamp_field(
            obj,
            "settled"@,
        ) is Some && spec_str_field(obj, "category"@) is Some && spec_opt_str_field(
            obj,
            "decline_reason"@,
        ) is Some {
            Some(
                TransactionModel {
                    account_balance: spec_int_field(obj, "account_balance"@)->0,
                    amount: spec_int_field(obj, "amount"@)->0,
                    created: spec_timestamp_field(obj, "created"@)->0,
                    currency: spec_str_field(obj, "currency"@)->0,
                    description: spec_str_field(obj, "description"@)->0,
                    id: spec_str_field(obj, "id"@)->0,
                    merchant: spec_opt_str_field(obj, "merchant"@)->0,
                    metadata: spec_string_map_field(obj, "metadata"@)->0,
                    notes: spec_str_field(obj, "notes"@)->0,
                    is_load: spec_bool_field(obj, "is_load"@)->0,
                    settled: spec_opt_timestamp_field(obj, "settled"@)->0,
                    category: spec_str_field(obj, "category"@)->0,
                    decline_reason: spec_opt_str_field(obj, "decline_reason"@)->0,
                },
            )
        } else {
            None
        },
        _ => None,
    }
}

/// Decode a transaction body.
pub fn decode_transaction(v: &JsonValue) -> (r: Option<Transaction>)
    ensures
        match r {
            Some(t) => spec_decode_transaction(v@) == Some(t@),
            None => spec_decode_transaction(v@) is None,
        },
{
    match v {
        JsonValue::Obj(pairs) => {
            proof {
                lemma_pairs_model(*pairs);
            }
            let account_balance = match int_field(pairs, "account_balance") {
                Some(x) => x,
                None => {
                    return None;
                },
            };
            let amount = match int_field(pairs, "amount") {
                Some(x) => x,
                None => {
                    return None;
                },
            };
            let created = match timestamp_field(pairs, "created") {
                Some(x) => x,
                None => {
                    return None;
                },
            };
            let currency = match str_field(pairs, "currency") {
                Some(x) => x,
                None => {
                    return None;
                },
            };
            let description = match str_field(pairs, "description") {
                Some(x) => x,
                None => {
                    return None;
                },
            };
            let id = match str_field(pairs, "id") {
                Some(x) => x,
                None => {
                    return None;
                },
            };
            let merchant = match opt_str_field(pairs, "merchant") {
                Some(x) => x,
                None => {
                    return None;
                },
            };
            let metadata = match string_map_field(pairs, "metadata") {
                Some(x) => x,
                None => {
                    return None;
                },
            };
            let notes = match str_field(pairs, "notes") {
                Some(x) => x,
                None => {
                    return None;
                },
            };
            let is_load = match bool_field(pairs, "is_load") {
                Some(x) => x,
                None => {
                    return None;
                },
            };
            let settled = match opt_timestamp_field(pairs, "settled") {
                Some(x) => x,
                None => {
                    return None;
                },
            };
            let category = match str_field(pairs, "category") {
                Some(x) => x,
                None => {
                    return None;
                },
            };
            let decline_reason = match opt_str_field(pairs, "decline_reason") {
                Some(x) => x,
                None => {
                    return None;
                },
            };
            Some(
                Transaction {
                    account_balance,
                    amount,
                    created,
                    currency,
                    description,
                    id,
                    merchant,
                    metadata,
                    notes,
                    is_load,
                    settled,
                    category,
                    decline_reason,
                },
            )
        },
        _ => None,
    }
}

/// The settlement coercion, seen at the transaction level: a transaction
/// whose `settled` field is absent or the empty string decodes to an absent
/// settlement timestamp, and one whose `settled` field is a non-empty string
/// decodes to exactly the timestamp that string parses to.
pub proof fn lemma_settled_coercion(v: JsonModel, s: Seq<char>)
    ensures
        (spec_decode_transaction(v) is Some && lookup(v->Obj_0, "settled"@) is None)
            ==> spec_decode_transaction(v)->0.settled is None,
        (spec_decode_transaction(v) is Some && lookup(v->Obj_0, "settled"@) == Some(
            JsonModel::Str(s),
        ) && s.len() == 0) ==> spec_decode_transaction(v)->0.settled is None,
        (spec_decode_transaction(v) is Some && lookup(v->Obj_0, "settled"@) == Some(
            JsonModel::Str(s),
        ) && s.len() > 0) ==> spec_decode_transaction(v)->0.settled == rfc3339_parse(s),
{
    if spec_decode_transaction(v) is Some {
        assert(v == JsonModel::Obj(v->Obj_0));
    }
}

/// The merchant coercion, seen at the transaction level: a transaction
/// whose `merchant` field is JSON `null` (or absent) decodes to an absent
/// merchant reference, and one whose `merchant` field is a string decodes to
/// exactly that string.
pub proof fn lemma_merchant_coercion(v: JsonModel, s: Seq<char>)
    ensures
        (spec_decode_transaction(v) is Some && lookup(v->Obj_0, "merchant"@) is None)
            ==> spec_decode_transaction(v)->0.merchant is None,
        (spec_decode_transaction(v) is Some && lookup(v->Obj_0, "merchant"@) == Some(
            JsonModel::Null,
        )) ==> spec_decode_transaction(v)->0.merchant is None,
        (spec_decode_transaction(v) is Some && lookup(v->Obj_0, "merchant"@) == Some(
            JsonModel::Str(s),
        )) ==> spec_decode_transaction(v)->0.merchant == Some(s),
{
    if spec_decode_transaction(v) is Some {
        assert(v == JsonModel::Obj(v->Obj_0));
    }
}

/// Any response whose status is not 200 and whose body decodes as the error
/// shape is a business error carrying exactly that status code and that
/// body — whatever the endpoint's success shape.
pub proof fn lemma_error_status_response<T>(
    status: u16,
    body: Seq<char>,
    dec: spec_fn(JsonModel) -> Option<T>,
)
    ensures
        (match json_parse(body) {
            Ok(doc) => match spec_decode_error_body(doc) {
                Some(e) => status != 200 ==> spec_response(status, body, dec) == Err::<
                    T,
                    FailureModel,
                >(FailureModel::BadResponse(status, e)),
                None => true,
            },
            Err(_) => true,
        }),
{
}

/// A response whose body is not valid JSON is a decode error carrying the
/// parser's message — never a business error, whatever the status code and
/// the endpoint's success shape.
pub proof fn lemma_bad_json_response<T>(
    status: u16,
    body: Seq<char>,
    dec: spec_fn(JsonModel) -> Option<T>,
)
    ensures
        json_parse(body) matches Err(msg) ==> spec_response(status, body, dec) == Err::<
            T,
            FailureModel,
        >(FailureModel::BadJsonResponse(DecodeFaultModel::Syntax(msg))),
{
}

/// In a well-formed object, the value a lookup finds is well-formed.
pub proof fn lemma_lookup_wf(obj: Seq<(Seq<char>, JsonModel)>, key: Seq<char>)
    requires
        json_wf(JsonModel::Obj(obj)),
        lookup(obj, key) is Some,
    ensures
        json_wf(lookup(obj, key)->0),
    decreases obj.len(),
{
    lemma_json_wf_obj(obj);
    if obj.len() > 0 && obj[0].0 != key {
        let rest = obj.drop_first();
        assert forall|i: int| 0 <= i < rest.len() implies json_wf((#[trigger] rest[i]).1) by {
            assert(rest[i] == obj[i + 1]);
        }
        assert forall|i: int, j: int| 0 <= i < j < rest.len() implies rest[i].0 != rest[j].0 by {
            assert(rest[i] == obj[i + 1]);
            assert(rest[j] == obj[j + 1]);
        }
        lemma_json_wf_obj_intro(rest);
        lemma_lookup_wf(rest, key);
    }
}

/// A transaction decoded from a well-formed document has distinct metadata
/// keys.
pub proof fn lemma_decode_transaction_wf(v: JsonModel)
    requires
        json_wf(v),
        spec_decode_transaction(v) is Some,
    ensures
        spec_decode_transaction(v)->0.wf(),
{
    let obj = v->Obj_0;
    assert(v == JsonModel::Obj(obj));
    lemma_lookup_wf(obj, "metadata"@);
    let mm = lookup(obj, "metadata"@)->0->Obj_0;
    assert(lookup(obj, "metadata"@)->0 == JsonModel::Obj(mm));
    lemma_json_wf_obj(mm);
    let md = spec_string_pairs(mm)->0;
    assert forall|i: int, j: int| 0 <= i < j < md.len() implies md[i].0 != md[j].0 by {
        assert(md[i].0 == mm[i].0);
        assert(md[j].0 == mm[j].0);
    }
}

/// What a list of account bodies decodes to: every element must decode.
pub open spec fn spec_decode_accounts(a: Seq<JsonModel>) -> Option<Seq<AccountModel>> {
    if forall|i: int| 0 <= i < a.len() ==> spec_decode_account(#[trigger] a[i]) is Some {
        Some(Seq::new(a.len(), |i: int| spec_decode_account(a[i])->0))
    } else {
        None
    }
}

/// Decode a list of account bodies.
pub fn decode_accounts(arr: &Vec<JsonValue>) -> (r: Option<Vec<Account>>)
    ensures
        match r {
            Some(xs) => spec_decode_accounts(arr_model(arr@)) == Some(xs.deep_view()),
            None => spec_decode_accounts(arr_model(arr@)) is None,
        },
{
    let ghost source = arr_model(arr@);
    let mut out: Vec<Account> = Vec::new();
    let mut i: usize = 0;
    while i < arr.len()
        invariant
            0 <= i <= arr.len(),
            source == arr_model(arr@),
            source.len() == arr@.len(),
            out.deep_view().len() == i,
            forall|j: int| 0 <= j < i ==> spec_decode_account(#[trigger] source[j]) is Some,
            forall|j: int|
                0 <= j < i ==> #[trigger] out.deep_view()[j] == spec_decode_account(source[j])->0,
        decreases arr.len() - i,
    {
        proof {
            assert(source[i as int] == json_model(arr@[i as int]));
        }
        match decode_account(&arr[i]) {
            Some(a) => {
                let ghost prev = out.deep_view();
                out.push(a);
                proof {
                    assert(out.deep_view() =~= prev.push(
                        spec_decode_account(source[i as int])->0,
                    ));
                }
            },
            None => {
                proof {
                    assert(spec_decode_account(source[i as int]) is None);
                }
                return None;
            },
        }
        i += 1;
    }
    proof {
        assert(out.deep_view() =~= spec_decode_accounts(source)->0);
    }
    Some(out)
}

/// What a list of transaction bodies decodes to: every element must decode.
pub open spec fn spec_decode_transactions(a: Seq<JsonModel>) -> Option<Seq<TransactionModel>> {
    if forall|i: int| 0 <= i < a.len() ==> spec_decode_transaction(#[trigger] a[i]) is Some {
        Some(Seq::new(a.len(), |i: int| spec_decode_transaction(a[i])->0))
    } else {
        None
    }
}

/// Decode a list of transaction bodies.
pub fn decode_transactions(arr: &Vec<JsonValue>) -> (r: Option<Vec<Transaction>>)
    ensures
        match r {
            Some(xs) => spec_decode_transactions(arr_model(arr@)) == Some(xs.deep_view()),
            None => spec_decode_transactions(arr_model(arr@)) is None,
        },
{
    let ghost source = arr_model(arr@);
    let mut out: Vec<Transaction> = Vec::new();
    let mut i: usize = 0;
    while i < arr.len()
        invariant
            0 <= i <= arr.len(),
            source == arr_model(arr@),
            source.len() == arr@.len(),
            out.deep_view().len() == i,
            forall|j: int| 0 <= j < i ==> spec_decode_transaction(#[trigger] source[j]) is Some,
            forall|j: int|
                0 <= j < i ==> #[trigger] out.deep_view()[j] == spec_decode_transaction(
                    source[j],
                )->0,
        decreases arr.len() - i,
    {
        proof {
            assert(source[i as int] == json_model(arr@[i as int]));
        }
        match decode_transaction(&arr[i]) {
            Some(t) => {
                let ghost prev = out.deep_view();
                out.push(t);
                proof {
                    assert(out.deep_view() =~= prev.push(
                        spec_decode_transaction(source[i as int])->0,
                    ));
                }
            },
            None => {
                proof {
                    assert(spec_decode_transaction(source[i as int]) is None);
                }
                return None;
            },
        }
        i += 1;
    }
    proof {
        assert(out.deep_view() =~= spec_decode_transactions(source)->0);
    }
    Some(out)
}

/// What a list of pot bodies decodes to: every element must decode.
pub open spec fn spec_decode_pots(a: Seq<JsonModel>) -> Option<Seq<PotModel>> {
    if forall|i: int| 0 <= i < a.len() ==> spec_decode_pot(#[trigger] a[i]) is Some {
        Some(Seq::new(a.len(), |i: int| spec_decode_pot(a[i])->0))
    } else {
        None
    }
}

/// Decode a list of pot bodies.
pub fn decode_pots(arr: &Vec<JsonValue>) -> (r: Option<Vec<Pot>>)
    ensures
        match r {
            Some(xs) => spec_decode_pots(arr_model(arr@)) == Some(xs.deep_view()),
            None => spec_decode_pots(arr_model(arr@)) is None,
        },
{
    let ghost source = arr_model(arr@);
    let mut out: Vec<Pot> = Vec::new();
    let mut i: usize = 0;
    while i < arr.len()
        invariant
            0 <= i <= arr.len(),
            source == arr_model(arr@),
            source.len() == arr@.len(),
            out.deep_view().len() == i,
            forall|j: int| 0 <= j < i ==> spec_decode_pot(#[trigger] source[j]) is Some,
            forall|j: int|
                0 <= j < i ==> #[trigger] out.deep_view()[j] == spec_decode_pot(source[j])->0,
        decreases arr.len() - i,
    {
        proof {
            assert(source[i as int] == json_model(arr@[i as int]));
        }
        match decode_pot(&arr[i]) {
            Some(p) => {
                let ghost prev = out.deep_view();
                out.push(p);
                proof {
                    assert(out.deep_view() =~= prev.push(spec_decode_pot(source[i as int])->0));
                }
            },
            None => {
                proof {
                    assert(spec_decode_pot(source[i as int]) is None);
                }
                return None;
            },
        }
        i += 1;
    }
    proof {
        assert(out.deep_view() =~= spec_decode_pots(source)->0);
    }
    Some(out)
}

/// What the list-accounts success body decodes to: an object whose
/// `accounts` field is an array of account bodies.
pub open spec fn spec_decode_accounts_doc(v: JsonModel) -> Option<Seq<AccountModel>> {
    match v {
        JsonModel::Obj(obj) => match lookup(obj, "accounts"@) {
            Some(JsonModel::Arr(a)) => spec_decode_accounts(a),
            _ => None,
        },
        _ => None,
    }
}

/// Decode the list-accounts success body.
pub fn decode_accounts_doc(v: &JsonValue) -> (r: Option<Accounts>)
    ensures
        match r {
            Some(x) => spec_decode_accounts_doc(v@) == Some(x@),
            None => spec_decode_accounts_doc(v@) is None,
        },
{
    match v {
        JsonValue::Obj(pairs) => {
            proof {
                lemma_pairs_model(*pairs);
            }
            let k = String::from_str("accounts");
            match lookup_field(pairs, &k) {
                Some(JsonValue::Arr(arr)) => {
                    proof {
                        lemma_arr_model(*arr);
                    }
                    match decode_accounts(arr) {
                        Some(xs) => Some(Accounts { accounts: xs }),
                        None => None,
                    }
                },
                _ => None,
            }
        },
        _ => None,
    }
}

/// What the list-transactions success body decodes to: an object whose
/// `transactions` field is an array of transaction bodies.
pub open spec fn spec_decode_transactions_doc(v: JsonModel) -> Option<Seq<TransactionModel>> {
    match v {
        JsonModel::Obj(obj) => match lookup(obj, "transactions"@) {
            Some(JsonModel::Arr(a)) => spec_decode_transactions(a),
            _ => None,
        },
        _ => None,
    }
}

/// Decode the list-transactions success body.
pub fn decode_transactions_doc(v: &JsonValue) -> (r: Option<Transactions>)
    ensures
        match r {
            Some(x) => spec_decode_transactions_doc(v@) == Some(x@),
            None => spec_decode_transactions_doc(v@) is None,
        },
{
    match v {
        JsonValue::Obj(pairs) => {
            proof {
                lemma_pairs_model(*pairs);
            }
            let k = String::from_str("transactions");
            match lookup_field(pairs, &k) {
                Some(JsonValue::Arr(arr)) => {
                    proof {
                        lemma_arr_model(*arr);
                    }
                    match decode_transactions(arr) {
                        Some(xs) => Some(Transactions { transactions: xs }),
                        None => None,
                    }
                },
                _ => None,
            }
        },
        _ => None,
    }
}

/// What the single-transaction success body decodes to: an object whose
/// `transaction` field is a transaction body.
pub open spec fn spec_decode_transaction_doc(v: JsonModel) -> Option<TransactionModel> {
    match v {
        JsonModel::Obj(obj) => match lookup(obj, "transaction"@) {
            Some(t) => spec_decode_transaction(t),
            None => None,
        },
        _ => None,
    }
}

/// Decode the single-transaction success body.
pub fn decode_transaction_doc(v: &JsonValue) -> (r: Option<TransactionResponse>)
    ensures
        match r {
            Some(x) => spec_decode_transaction_doc(v@) == Some(x@),
            None => spec_decode_transaction_doc(v@) is None,
        },
{
    match v {
        JsonValue::Obj(pairs) => {
            proof {
                lemma_pairs_model(*pairs);
            }
            let k = String::from_str("transaction");
            match lookup_field(pairs, &k) {
                Some(t) => match decode_transaction(t) {
                    Some(x) => Some(TransactionResponse { transaction: x }),
                    None => None,
                },
                None => None,
            }
        },
        _ => None,
    }
}

/// What the list-pots success body decodes to: an object whose `pots` field
/// is an array of pot bodies.
pub open spec fn spec_decode_pots_doc(v: JsonModel) -> Option<Seq<PotModel>> {
    match v {
        JsonModel::Obj(obj) => match lookup(obj, "pots"@) {
            Some(JsonModel::Arr(a)) => spec_decode_pots(a),
            _ => None,
        },
        _ => None,
    }
}

/// Decode the list-pots success body.
pub fn decode_pots_doc(v: &JsonValue) -> (r: Option<PotsResponse>)
    ensures
        match r {
            Some(x) => spec_decode_pots_doc(v@) == Some(x@),
            None => spec_decode_pots_doc(v@) is None,
        },
{
    match v {
        JsonValue::Obj(pairs) => {
            proof {
                lemma_pairs_model(*pairs);
            }
            let k = String::from_str("pots");
            match lookup_field(pairs, &k) {
                Some(JsonValue::Arr(arr)) => {
                    proof {
                        lemma_arr_model(*arr);
                    }
                    match decode_pots(arr) {
                        Some(xs) => Some(PotsResponse { pots: xs }),
                        None => None,
                    }
                },
                _ => None,
            }
        },
        _ => None,
    }
}

/// How a raw response is classified, before any success shape is read:
/// a body that does not parse is a decode failure whatever the status; with
/// a parsed body, status 200 — the only success status — hands the document
/// on, and any other status wraps the decoded error body, together with that
/// status, as a business error.
pub open spec fn spec_classify(status: u16, body: Seq<char>) -> Result<JsonModel, FailureModel> {
    match json_parse(body) {
        Err(m) => Err(FailureModel::BadJsonResponse(DecodeFaultModel::Syntax(m))),
        Ok(doc) => if status == 200 {
            Ok(doc)
        } else {
            match spec_decode_error_body(doc) {
                Some(e) => Err(FailureModel::BadResponse(status, e)),
                None => Err(FailureModel::BadJsonResponse(DecodeFaultModel::Shape)),
            }
        },
    }
}

/// What a whole response decodes to, given the success shape's decoder:
/// classification first, then — only on the success status — the success
/// shape; the same body is never decoded against both shapes.
pub open spec fn spec_response<T>(
    status: u16,
    body: Seq<char>,
    dec: spec_fn(JsonModel) -> Option<T>,
) -> Result<T, FailureModel> {
    match spec_classify(status, body) {
        Ok(doc) => match dec(doc) {
            Some(t) => Ok(t),
            None => Err(FailureModel::BadJsonResponse(DecodeFaultModel::Shape)),
        },
        Err(f) => Err(f),
    }
}

/// Parse and classify a response, handing a 200 body on for its success
/// shape and turning everything else into the matching failure.
fn classify_and_parse(status: u16, body: &str) -> (r: Result<JsonValue, errors::Error>)
    ensures
        r matches Ok(doc) ==> spec_classify(status, body@) == Ok::<JsonModel, FailureModel>(doc@)
            && json_wf(doc@),
        r matches Err(e) ==> spec_classify(status, body@) == Err::<JsonModel, FailureModel>(e@),
{
    match parse_json(body) {
        Err(m) => Err(errors::Error::BadJsonResponse(DecodeFault::Syntax(m))),
        Ok(doc) => {
            if status == 200 {
                Ok(doc)
            } else {
                match decode_error_body(&doc) {
                    Some(e) => Err(errors::Error::BadResponse(status, e)),
                    None => Err(errors::Error::BadJsonResponse(DecodeFault::Shape)),
                }
            }
        },
    }
}

/// What a list-accounts response decodes to.
pub open spec fn spec_accounts_response(status: u16, body: Seq<char>) -> Result<
    Seq<AccountModel>,
    FailureModel,
> {
    spec_response(status, body, |v: JsonModel| spec_decode_accounts_doc(v))
}

/// Decode a list-accounts response from its status code and raw body.
pub fn decode_accounts_response(status: u16, body: &str) -> (r: Result<Accounts, errors::Error>)
    ensures
        r matches Ok(x) ==> spec_accounts_response(status, body@) == Ok::<_, FailureModel>(x@),
        r matches Err(e) ==> spec_accounts_response(status, body@) == Err::<Seq<AccountModel>, _>(
            e@,
        ),
{
    match classify_and_parse(status, body) {
        Ok(doc) => match decode_accounts_doc(&doc) {
            Some(x) => Ok(x),
            None => Err(errors::Error::BadJsonResponse(DecodeFault::Shape)),
        },
        Err(e) => Err(e),
    }
}

/// What a balance response decodes to.
pub open spec fn spec_balance_response(status: u16, body: Seq<char>) -> Result<
    BalanceModel,
    FailureModel,
> {
    spec_response(status, body, |v: JsonModel| spec_decode_balance(v))
}

/// Decode a balance response from its status code and raw body.
pub fn decode_balance_response(status: u16, body: &str) -> (r: Result<Balance, errors::Error>)
    ensures
        r matches Ok(b) ==> spec_balance_response(status, body@) == Ok::<_, FailureModel>(b@),
        r matches Err(e) ==> spec_balance_response(status, body@) == Err::<BalanceModel, _>(e@),
{
    match classify_and_parse(status, body) {
        Ok(doc) => match decode_balance(&doc) {
            Some(b) => Ok(b),
            None => Err(errors::Error::BadJsonResponse(DecodeFault::Shape)),
        },
        Err(e) => Err(e),
    }
}

/// What a list-transactions response decodes to.
pub open spec fn spec_transactions_response(status: u16, body: Seq<char>) -> Result<
    Seq<TransactionModel>,
    FailureModel,
> {
    spec_response(status, body, |v: JsonModel| spec_decode_transactions_doc(v))
}

/// Decode a list-transactions response from its status code and raw body.
/// Every decoded transaction has distinct metadata keys.
pub fn decode_transactions_response(status: u16, body: &str) -> (r: Result<
    Transactions,
    errors::Error,
>)
    ensures
        r matches Ok(x) ==> spec_transactions_response(status, body@) == Ok::<_, FailureModel>(x@),
        r matches Err(e) ==> spec_transactions_response(status, body@) == Err::<
            Seq<TransactionModel>,
            _,
        >(e@),
        r matches Ok(x) ==> forall|i: int| 0 <= i < x@.len() ==> (#[trigger] x@[i]).wf(),
{
    match classify_and_parse(status, body) {
        Ok(doc) => match decode_transactions_doc(&doc) {
            Some(x) => {
                proof {
                    lemma_decode_transactions_doc_wf(doc@);
                }
                Ok(x)
            },
            None => Err(errors::Error::BadJsonResponse(DecodeFault::Shape)),
        },
        Err(e) => Err(e),
    }
}

/// Every transaction of a well-formed list-transactions body has distinct
/// metadata keys.
pub proof fn lemma_decode_transactions_doc_wf(v: JsonModel)
    requires
        json_wf(v),
        spec_decode_transactions_doc(v) is Some,
    ensures
        forall|i: int|
            0 <= i < spec_decode_transactions_doc(v)->0.len() ==> (
            #[trigger] spec_decode_transactions_doc(v)->0[i]).wf(),
{
    let obj = v->Obj_0;
    assert(v == JsonModel::Obj(obj));
    lemma_lookup_wf(obj, "transactions"@);
    let a = lookup(obj, "transactions"@)->0->Arr_0;
    assert(lookup(obj, "transactions"@)->0 == JsonModel::Arr(a));
    lemma_json_wf_arr(a);
    let ms = spec_decode_transactions(a)->0;
    assert forall|i: int| 0 <= i < ms.len() implies (#[trigger] ms[i]).wf() by {
        assert(json_wf(a[i]));
        lemma_decode_transaction_wf(a[i]);
    }
}

/// What a single-transaction response decodes to.
pub open spec fn spec_transaction_response(status: u16, body: Seq<char>) -> Result<
    TransactionModel,
    FailureModel,
> {
    spec_response(status, body, |v: JsonModel| spec_decode_transaction_doc(v))
}

/// Decode a single-transaction response from its status code and raw body.
/// The decoded transaction has distinct metadata keys.
pub fn decode_transaction_response(status: u16, body: &str) -> (r: Result<
    TransactionResponse,
    errors::Error,
>)
    ensures
        r matches Ok(x) ==> spec_transaction_response(status, body@) == Ok::<_, FailureModel>(x@),
        r matches Err(e) ==> spec_transaction_response(status, body@) == Err::<
            TransactionModel,
            _,
        >(e@),
        r matches Ok(x) ==> x@.wf(),
{
    match classify_and_parse(status, body) {
        Ok(doc) => match decode_transaction_doc(&doc) {
            Some(x) => {
                proof {
                    let obj = doc@->Obj_0;
                    lemma_lookup_wf(obj, "transaction"@);
                    lemma_decode_transaction_wf(lookup(obj, "transaction"@)->0);
                }
                Ok(x)
            },
            None => Err(errors::Error::BadJsonResponse(DecodeFault::Shape)),
        },
        Err(e) => Err(e),
    }
}

/// What a list-pots response decodes to.
pub open spec fn spec_pots_response(status: u16, body: Seq<char>) -> Result<
    Seq<PotModel>,
    FailureModel,
> {
    spec_response(status, body, |v: JsonModel| spec_decode_pots_doc(v))
}

/// Decode a list-pots response from its status code and raw body.
pub fn decode_pots_response(status: u16, body: &str) -> (r: Result<PotsResponse, errors::Error>)
    ensures
        r matches Ok(x) ==> spec_pots_response(status, body@) == Ok::<_, FailureModel>(x@),
        r matches Err(e) ==> spec_pots_response(status, body@) == Err::<Seq<PotModel>, _>(e@),
{
    match classify_and_parse(status, body) {
        Ok(doc) => match decode_pots_doc(&doc) {
            Some(x) => Ok(x),
            None => Err(errors::Error::BadJsonResponse(DecodeFault::Shape)),
        },
        Err(e) => Err(e),
    }
}

} // verus!
