//! Encoding records back into JSON trees, and the round-trip laws.
//!
//! The library never sends JSON, so these encoders exist for what they let
//! one state: decoding an encoded record gives back exactly that record, for
//! every record the decoders can produce. A timestamp has many textual
//! spellings, so the encoders take the RFC 3339 text to write; the laws hold
//! for every text that parses to the record's timestamp.

use vstd::prelude::*;

use crate::decode::spec_decode_account;
use crate::decode::spec_decode_accounts;
use crate::decode::spec_decode_accounts_doc;
use crate::decode::spec_decode_balance;
use crate::decode::spec_decode_error_body;
use crate::decode::spec_decode_pot;
use crate::decode::spec_decode_pots;
use crate::decode::spec_decode_pots_doc;
use crate::decode::spec_decode_transaction;
use crate::decode::spec_decode_transaction_doc;
use crate::decode::spec_decode_transactions;
use crate::decode::spec_decode_transactions_doc;
use crate::decode::spec_string_pairs;
use crate::json::JsonModel;
use crate::json::JsonValue;
use crate::json::json_model;
use crate::json::lemma_lookup_at;
use crate::json::lemma_pairs_model;
use crate::json::pairs_model;
use crate::records::Account;
use crate::records::AccountModel;
use crate::records::Balance;
use crate::records::BalanceModel;
use crate::records::Error;
use crate::records::ErrorModel;
use crate::records::Pot;
use crate::records::PotModel;
use crate::records::Transaction;
use crate::records::TransactionModel;
use crate::timestamp::rfc3339_parse;

verus! {

/// How an optional string is written: an absent value as `null`, a present
/// one as the string itself.
pub open spec fn spec_encode_opt_str(o: Option<Seq<char>>) -> JsonModel {
    match o {
        None => JsonModel::Null,
        Some(s) => JsonModel::Str(s),
    }
}

/// Write an optional string: an absent value as `null`.
pub fn encode_opt_str(o: &Option<String>) -> (r: JsonValue)
    ensures
        json_model(r) == spec_encode_opt_str(o.deep_view()),
{
    match o {
        None => JsonValue::Null,
        Some(s) => JsonValue::Str(s.clone()),
    }
}

/// What a balance encodes to.
pub open spec fn spec_encode_balance(m: BalanceModel) -> JsonModel {
    JsonModel::Obj(
        seq![
            ("balance"@, JsonModel::Int(m.balance)),
            ("currency"@, JsonModel::Str(m.currency)),
            ("spend_today"@, JsonModel::Int(m.spend_today)),
        ],
    )
}

/// Encode a balance.
pub fn encode_balance(b: &Balance) -> (r: JsonValue)
    ensures
        json_model(r) == spec_encode_balance(b@),
{
    let mut pairs: Vec<(String, JsonValue)> = Vec::new();
    pairs.push((String::from_str("balance"), JsonValue::Int(b.balance)));
    pairs.push((String::from_str("currency"), JsonValue::Str(b.currency.clone())));
    pairs.push((String::from_str("spend_today"), JsonValue::Int(b.spend_today)));
    let ghost gp = pairs@;
    let r = JsonValue::Obj(pairs);
    proof {
        lemma_pairs_model(r->Obj_0);
        assert(pairs_model(gp) =~= spec_encode_balance(b@)->Obj_0);
    }
    r
}

/// Decoding an encoded balance gives back exactly that balance.
pub proof fn lemma_balance_round_trip(m: BalanceModel)
    ensures
        spec_decode_balance(spec_encode_balance(m)) == Some(m),
{
    reveal_strlit("balance");
    reveal_strlit("currency");
    reveal_strlit("spend_today");
    assert("balance"@.len() == 7);
    assert("currency"@.len() == 8);
    assert("spend_today"@.len() == 11);
    let obj = spec_encode_balance(m)->Obj_0;
    lemma_lookup_at(obj, "balance"@, 0);
    lemma_lookup_at(obj, "currency"@, 1);
    lemma_lookup_at(obj, "spend_today"@, 2);
}

/// What an error body encodes to.
pub open spec fn spec_encode_error_body(m: ErrorModel) -> JsonModel {
    JsonModel::Obj(
        seq![
            ("code"@, spec_encode_opt_str(m.code)),
            ("error"@, spec_encode_opt_str(m.error)),
            ("error_description"@, spec_encode_opt_str(m.error_description)),
            ("message"@, spec_encode_opt_str(m.message)),
        ],
    )
}

/// Encode an error body.
pub fn encode_error_body(e: &Error) -> (r: JsonValue)
    ensures
        json_model(r) == spec_encode_error_body(e@),
{
    let mut pairs: Vec<(String, JsonValue)> = Vec::new();
    pairs.push((String::from_str("code"), encode_opt_str(&e.code)));
    pairs.push((String::from_str("error"), encode_opt_str(&e.error)));
    pairs.push((String::from_str("error_description"), encode_opt_str(&e.error_description)));
    pairs.push((String::from_str("message"), encode_opt_str(&e.message)));
    let ghost gp = pairs@;
    let r = JsonValue::Obj(pairs);
    proof {
        lemma_pairs_model(r->Obj_0);
        assert(pairs_model(gp) =~= spec_encode_error_body(e@)->Obj_0);
    }
    r
}

/// Decoding an encoded error body gives back exactly that body.
pub proof fn lemma_error_body_round_trip(m: ErrorModel)
    ensures
        spec_decode_error_body(spec_encode_error_body(m)) == Some(m),
{
    reveal_strlit("code");
    reveal_strlit("error");
    reveal_strlit("error_description");
    reveal_strlit("message");
    assert("code"@.len() == 4);
    assert("error"@.len() == 5);
    assert("error_description"@.len() == 17);
    assert("message"@.len() == 7);
    let obj = spec_encode_error_body(m)->Obj_0;
    lemma_lookup_at(obj, "code"@, 0);
    lemma_lookup_at(obj, "error"@, 1);
    lemma_lookup_at(obj, "error_description"@, 2);
    lemma_lookup_at(obj, "message"@, 3);
}

/// What an account encodes to, writing its timestamp as `created_text`.
pub open spec fn spec_encode_account(m: AccountModel, created_text: Seq<char>) -> JsonModel {
    JsonModel::Obj(
        seq![
            ("id"@, JsonModel::Str(m.id)),
            ("description"@, JsonModel::Str(m.description)),
            ("created"@, JsonModel::Str(created_text)),
        ],
    )
}

/// Encode an account, writing its timestamp as `created_text`.
pub fn encode_account(a: &Account, created_text: &str) -> (r: JsonValue)
    ensures
        json_model(r) == spec_encode_account(a@, created_text@),
{
    let mut pairs: Vec<(String, JsonValue)> = Vec::new();
    pairs.push((String::from_str("id"), JsonValue::Str(a.id.clone())));
    pairs.push((String::from_str("description"), JsonValue::Str(a.description.clone())));
    pairs.push((String::from_str("created"), JsonValue::Str(String::from_str(created_text))));
    let ghost gp = pairs@;
    let r = JsonValue::Obj(pairs);
    proof {
        lemma_pairs_model(r->Obj_0);
        assert(pairs_model(gp) =~= spec_encode_account(a@, created_text@)->Obj_0);
    }
    r
}

/// Decoding an encoded account gives back exactly that account, for every
/// text that parses to its timestamp.
pub proof fn lemma_account_round_trip(m: AccountModel, created_text: Seq<char>)
    ensures
        rfc3339_parse(created_text) == Some(m.created) ==> spec_decode_account(
            spec_encode_account(m, created_text),
        ) == Some(m),
{
    reveal_strlit("id");
    reveal_strlit("description");
    reveal_strlit("created");
    assert("id"@.len() == 2);
    assert("description"@.len() == 11);
    assert("created"@.len() == 7);
    let obj = spec_encode_account(m, created_text)->Obj_0;
    lemma_lookup_at(obj, "id"@, 0);
    lemma_lookup_at(obj, "description"@, 1);
    lemma_lookup_at(obj, "created"@, 2);
}

/// What a pot encodes to, writing its timestamps as the given texts.
pub open spec fn spec_encode_pot(
    m: PotModel,
    created_text: Seq<char>,
    updated_text: Seq<char>,
) -> JsonModel {
    JsonModel::Obj(
        seq![
            ("id"@, JsonModel::Str(m.id)),
            ("name"@, JsonModel::Str(m.name)),
            ("style"@, JsonModel::Str(m.style)),
            ("balance"@, JsonModel::Int(m.balance)),
            ("currency"@, JsonModel::Str(m.currency)),
            ("created"@, JsonModel::Str(created_text)),
            ("updated"@, JsonModel::Str(updated_text)),
            ("deleted"@, JsonModel::Bool(m.deleted)),
        ],
    )
}

/// Encode a pot, writing its timestamps as the given texts.
pub fn encode_pot(p: &Pot, created_text: &str, updated_text: &str) -> (r: JsonValue)
    ensures
        json_model(r) == spec_encode_pot(p@, created_text@, updated_text@),
{
    let mut pairs: Vec<(String, JsonValue)> = Vec::new();
    pairs.push((String::from_str("id"), JsonValue::Str(p.id.clone())));
    pairs.push((String::from_str("name"), JsonValue::Str(p.name.clone())));
    pairs.push((String::from_str("style"), JsonValue::Str(p.style.clone())));
    pairs.push((String::from_str("balance"), JsonValue::Int(p.balance)));
    pairs.push((String::from_str("currency"), JsonValue::Str(p.currency.clone())));
    pairs.push((String::from_str("created"), JsonValue::Str(String::from_str(created_text))));
    pairs.push((String::from_str("updated"), JsonValue::Str(String::from_str(updated_text))));
    pairs.push((String::from_str("deleted"), JsonValue::Bool(p.deleted)));
    let ghost gp = pairs@;
    let r = JsonValue::Obj(pairs);
    proof {
        lemma_pairs_model(r->Obj_0);
        assert(pairs_model(gp) =~= spec_encode_pot(p@, created_text@, updated_text@)->Obj_0);
    }
    r
}

/// Decoding an encoded pot gives back exactly that pot, for all texts that
/// parse to its timestamps.
pub proof fn lemma_pot_round_trip(m: PotModel, created_text: Seq<char>, updated_text: Seq<char>)
    ensures
        (rfc3339_parse(created_text) == Some(m.created) && rfc3339_parse(updated_text) == Some(
            m.updated,
        )) ==> spec_decode_pot(spec_encode_pot(m, created_text, updated_text)) == Some(m),
{
    reveal_strlit("id");
    reveal_strlit("name");
    reveal_strlit("style");
    reveal_strlit("balance");
    reveal_strlit("currency");
    reveal_strlit("created");
    reveal_strlit("updated");
    reveal_strlit("deleted");
    assert("id"@.len() == 2);
    assert("name"@.len() == 4);
    assert("style"@.len() == 5);
    assert("balance"@.len() == 7);
    assert("currency"@.len() == 8);
    assert("created"@.len() == 7);
    assert("updated"@.len() == 7);
    assert("deleted"@.len() == 7);
    assert("balance"@[0] != "created"@[0]);
    assert("balance"@[0] != "updated"@[0]);
    assert("balance"@[0] != "deleted"@[0]);
    assert("created"@[0] != "updated"@[0]);
    assert("created"@[0] != "deleted"@[0]);
    assert("updated"@[0] != "deleted"@[0]);
    let obj = spec_encode_pot(m, created_text, updated_text)->Obj_0;
    lemma_lookup_at(obj, "id"@, 0);
    lemma_lookup_at(obj, "name"@, 1);
    lemma_lookup_at(obj, "style"@, 2);
    lemma_lookup_at(obj, "balance"@, 3);
    lemma_lookup_at(obj, "currency"@, 4);
    lemma_lookup_at(obj, "created"@, 5);
    lemma_lookup_at(obj, "updated"@, 6);
    lemma_lookup_at(obj, "deleted"@, 7);
}

/// What a string-to-string mapping encodes to: the same pairs, each value a
/// JSON string.
pub open spec fn spec_encode_string_pairs(md: Seq<(Seq<char>, Seq<char>)>) -> Seq<
    (Seq<char>, JsonModel),
> {
    Seq::new(md.len(), |i: int| (md[i].0, JsonModel::Str(md[i].1)))
}

/// Encode a string-to-string mapping as object pairs.
fn encode_string_pairs(md: &Vec<(String, String)>) -> (r: Vec<(String, JsonValue)>)
    ensures
        pairs_model(r@) == spec_encode_string_pairs(md.deep_view()),
{
    let mut out: Vec<(String, JsonValue)> = Vec::new();
    let mut i: usize = 0;
    while i < md.len()
        invariant
            0 <= i <= md.len(),
            out@.len() == i,
            forall|j: int|
                0 <= j < i ==> #[trigger] pairs_model(out@)[j] == (
                md.deep_view()[j].0,
                JsonModel::Str(md.deep_view()[j].1),
                ),
        decreases md.len() - i,
    {
        proof {
            assert(md.deep_view()[i as int] == (md@[i as int].0@, md@[i as int].1@));
        }
        let ghost prev = pairs_model(out@);
        out.push((md[i].0.clone(), JsonValue::Str(md[i].1.clone())));
        proof {
            assert(pairs_model(out@) =~= prev.push(
                (md@[i as int].0@, JsonModel::Str(md@[i as int].1@)),
            ));
        }
        i += 1;
    }
    proof {
        assert(pairs_model(out@) =~= spec_encode_string_pairs(md.deep_view()));
    }
    out
}

/// What a transaction encodes to, writing its timestamps as the given
/// texts: an absent merchant or decline reason as `null`, and an absent
/// settlement as the empty string, as the upstream API itself does.
pub open spec fn spec_encode_transaction(
    m: TransactionModel,
    created_text: Seq<char>,
    settled_text: Seq<char>,
) -> JsonModel {
    JsonModel::Obj(
        seq![
            ("account_balance"@, JsonModel::Int(m.account_balance)),
            ("amount"@, JsonModel::Int(m.amount)),
            ("created"@, JsonModel::Str(created_text)),
            ("currency"@, JsonModel::Str(m.currency)),
            ("description"@, JsonModel::Str(m.description)),
            ("id"@, JsonModel::Str(m.id)),
            ("merchant"@, spec_encode_opt_str(m.merchant)),
            ("metadata"@, JsonModel::Obj(spec_encode_string_pairs(m.metadata))),
            ("notes"@, JsonModel::Str(m.notes)),
            ("is_load"@, JsonModel::Bool(m.is_load)),
            ("settled"@, JsonModel::Str(settled_text)),
            ("category"@, JsonModel::Str(m.category)),
            ("decline_reason"@, spec_encode_opt_str(m.decline_reason)),
        ],
    )
}

/// Encode a transaction, writing its timestamps as the given texts. An
/// absent settlement is written as the empty string.
pub fn encode_transaction(t: &Transaction, created_text: &str, settled_text: &str) -> (r:
    JsonValue)
    ensures
        json_model(r) == spec_encode_transaction(t@, created_text@, settled_text@),
{
    let metadata = encode_string_pairs(&t.metadata);
    let mut pairs: Vec<(String, JsonValue)> = Vec::new();
    pairs.push((String::from_str("account_balance"), JsonValue::Int(t.account_balance)));
    pairs.push((String::from_str("amount"), JsonValue::Int(t.amount)));
    pairs.push((String::from_str("created"), JsonValue::Str(String::from_str(created_text))));
    pairs.push((String::from_str("currency"), JsonValue::Str(t.currency.clone())));
    pairs.push((String::from_str("description"), JsonValue::Str(t.description.clone())));
    pairs.push((String::from_str("id"), JsonValue::Str(t.id.clone())));
    pairs.push((String::from_str("merchant"), encode_opt_str(&t.merchant)));
    let ghost metadata_model = pairs_model(metadata@);
    pairs.push((String::from_str("metadata"), JsonValue::Obj(metadata)));
    pairs.push((String::from_str("notes"), JsonValue::Str(t.notes.clone())));
    pairs.push((String::from_str("is_load"), JsonValue::Bool(t.is_load)));
    pairs.push((String::from_str("settled"), JsonValue::Str(String::from_str(settled_text))));
    pairs.push((String::from_str("category"), JsonValue::Str(t.category.clone())));
    pairs.push((String::from_str("decline_reason"), encode_opt_str(&t.decline_reason)));
    let ghost gp = pairs@;
    let r = JsonValue::Obj(pairs);
    proof {
        lemma_pairs_model(r->Obj_0);
        lemma_pairs_model(gp[7].1->Obj_0);
        assert(pairs_model(gp) =~= spec_encode_transaction(t@, created_text@, settled_text@)->Obj_0);
    }
    r
}

/// Decoding an encoded transaction gives back exactly that transaction, for
/// every text that parses to its creation timestamp, with an absent
/// settlement written as the empty string and a present one as any text
/// that parses to it.
pub proof fn lemma_transaction_round_trip(
    m: TransactionModel,
    created_text: Seq<char>,
    settled_text: Seq<char>,
)
    ensures
        (rfc3339_parse(created_text) == Some(m.created) && (match m.settled {
            None => settled_text.len() == 0,
            Some(t) => settled_text.len() > 0 && rfc3339_parse(settled_text) == Some(t),
        })) ==> spec_decode_transaction(spec_encode_transaction(m, created_text, settled_text))
            == Some(m),
{
    reveal_strlit("account_balance");
    reveal_strlit("amount");
    reveal_strlit("created");
    reveal_strlit("currency");
    reveal_strlit("description");
    reveal_strlit("id");
    reveal_strlit("merchant");
    reveal_strlit("metadata");
    reveal_strlit("notes");
    reveal_strlit("is_load");
    reveal_strlit("settled");
    reveal_strlit("category");
    reveal_strlit("decline_reason");
    assert("account_balance"@.len() == 15);
    assert("amount"@.len() == 6);
    assert("created"@.len() == 7);
    assert("currency"@.len() == 8);
    assert("description"@.len() == 11);
    assert("id"@.len() == 2);
    assert("merchant"@.len() == 8);
    assert("metadata"@.len() == 8);
    assert("notes"@.len() == 5);
    assert("is_load"@.len() == 7);
    assert("settled"@.len() == 7);
    assert("category"@.len() == 8);
    assert("decline_reason"@.len() == 14);
    assert("currency"@[0] != "merchant"@[0]);
    assert("currency"@[0] != "metadata"@[0]);
    assert("currency"@[1] != "category"@[1]);
    assert("merchant"@[2] != "metadata"@[2]);
    assert("merchant"@[0] != "category"@[0]);
    assert("metadata"@[0] != "category"@[0]);
    assert("created"@[0] != "is_load"@[0]);
    assert("created"@[0] != "settled"@[0]);
    assert("is_load"@[0] != "settled"@[0]);
    let obj = spec_encode_transaction(m, created_text, settled_text)->Obj_0;
    lemma_lookup_at(obj, "account_balance"@, 0);
    lemma_lookup_at(obj, "amount"@, 1);
    lemma_lookup_at(obj, "created"@, 2);
    lemma_lookup_at(obj, "currency"@, 3);
    lemma_lookup_at(obj, "description"@, 4);
    lemma_lookup_at(obj, "id"@, 5);
    lemma_lookup_at(obj, "merchant"@, 6);
    lemma_lookup_at(obj, "metadata"@, 7);
    lemma_lookup_at(obj, "notes"@, 8);
    lemma_lookup_at(obj, "is_load"@, 9);
    lemma_lookup_at(obj, "settled"@, 10);
    lemma_lookup_at(obj, "category"@, 11);
    lemma_lookup_at(obj, "decline_reason"@, 12);
    let mm = spec_encode_string_pairs(m.metadata);
    assert(spec_string_pairs(mm) matches Some(md) && md =~= m.metadata);
}

/// What a list-accounts success body encodes to.
pub open spec fn spec_encode_accounts_doc(
    ms: Seq<AccountModel>,
    created_texts: Seq<Seq<char>>,
) -> JsonModel {
    JsonModel::Obj(
        seq![
            (
                "accounts"@,
                JsonModel::Arr(
                    Seq::new(ms.len(), |i: int| spec_encode_account(ms[i], created_texts[i])),
                ),
            ),
        ],
    )
}

/// Decoding an encoded list-accounts body gives back exactly those
/// accounts, for all texts that parse to their timestamps.
pub proof fn lemma_accounts_round_trip(ms: Seq<AccountModel>, created_texts: Seq<Seq<char>>)
    ensures
        (ms.len() == created_texts.len() && (forall|i: int|
            0 <= i < ms.len() ==> rfc3339_parse(#[trigger] created_texts[i]) == Some(
                ms[i].created,
            ))) ==> spec_decode_accounts_doc(spec_encode_accounts_doc(ms, created_texts)) == Some(
            ms,
        ),
{
    if ms.len() == created_texts.len() && (forall|i: int|
        0 <= i < ms.len() ==> rfc3339_parse(#[trigger] created_texts[i]) == Some(ms[i].created)) {
        let doc = spec_encode_accounts_doc(ms, created_texts);
        let obj = doc->Obj_0;
        lemma_lookup_at(obj, "accounts"@, 0);
        let a = Seq::new(ms.len(), |i: int| spec_encode_account(ms[i], created_texts[i]));
        assert forall|i: int| 0 <= i < a.len() implies spec_decode_account(#[trigger] a[i])
            is Some by {
            lemma_account_round_trip(ms[i], created_texts[i]);
        }
        assert forall|i: int| 0 <= i < a.len() implies spec_decode_account(#[trigger] a[i])->0
            == ms[i] by {
            lemma_account_round_trip(ms[i], created_texts[i]);
        }
        assert(spec_decode_accounts(a)->0 =~= ms);
    }
}

/// What a list-transactions success body encodes to.
pub open spec fn spec_encode_transactions_doc(
    ms: Seq<TransactionModel>,
    created_texts: Seq<Seq<char>>,
    settled_texts: Seq<Seq<char>>,
) -> JsonModel {
    JsonModel::Obj(
        seq![
            (
                "transactions"@,
                JsonModel::Arr(
                    Seq::new(
                        ms.len(),
                        |i: int| spec_encode_transaction(ms[i], created_texts[i], settled_texts[i]),
                    ),
                ),
            ),
        ],
    )
}

/// The hypothesis under which a transaction's encoding round-trips: the
/// texts spell its timestamps, an absent settlement as the empty string.
pub open spec fn transaction_texts_fit(
    m: TransactionModel,
    created_text: Seq<char>,
    settled_text: Seq<char>,
) -> bool {
    &&& rfc3339_parse(created_text) == Some(m.created)
    &&& match m.settled {
        None => settled_text.len() == 0,
        Some(t) => settled_text.len() > 0 && rfc3339_parse(settled_text) == Some(t),
    }
}

/// Decoding an encoded list-transactions body gives back exactly those
/// transactions, for all texts that fit their timestamps.
pub proof fn lemma_transactions_round_trip(
    ms: Seq<TransactionModel>,
    created_texts: Seq<Seq<char>>,
    settled_texts: Seq<Seq<char>>,
)
    ensures
        (ms.len() == created_texts.len() && ms.len() == settled_texts.len() && (forall|i: int|
            0 <= i < ms.len() ==> transaction_texts_fit(
                #[trigger] ms[i],
                created_texts[i],
                settled_texts[i],
            ))) ==> spec_decode_transactions_doc(
            spec_encode_transactions_doc(ms, created_texts, settled_texts),
        ) == Some(ms),
{
    if ms.len() == created_texts.len() && ms.len() == settled_texts.len() && (forall|i: int|
        0 <= i < ms.len() ==> transaction_texts_fit(
            #[trigger] ms[i],
            created_texts[i],
            settled_texts[i],
        )) {
        let doc = spec_encode_transactions_doc(ms, created_texts, settled_texts);
        let obj = doc->Obj_0;
        lemma_lookup_at(obj, "transactions"@, 0);
        let a = Seq::new(
            ms.len(),
            |i: int| spec_encode_transaction(ms[i], created_texts[i], settled_texts[i]),
        );
        assert forall|i: int| 0 <= i < a.len() implies spec_decode_transaction(#[trigger] a[i])
            is Some by {
            lemma_transaction_round_trip(ms[i], created_texts[i], settled_texts[i]);
        }
        assert forall|i: int| 0 <= i < a.len() implies spec_decode_transaction(#[trigger] a[i])->0
            == ms[i] by {
            lemma_transaction_round_trip(ms[i], created_texts[i], settled_texts[i]);
        }
        assert(spec_decode_transactions(a)->0 =~= ms);
    }
}

/// What a single-transaction success body encodes to.
pub open spec fn spec_encode_transaction_doc(
    m: TransactionModel,
    created_text: Seq<char>,
    settled_text: Seq<char>,
) -> JsonModel {
    JsonModel::Obj(
        seq![("transaction"@, spec_encode_transaction(m, created_text, settled_text))],
    )
}

/// Decoding an encoded single-transaction body gives back exactly that
/// transaction, for all texts that fit its timestamps.
pub proof fn lemma_transaction_doc_round_trip(
    m: TransactionModel,
    created_text: Seq<char>,
    settled_text: Seq<char>,
)
    ensures
        transaction_texts_fit(m, created_text, settled_text)
            ==> spec_decode_transaction_doc(
            spec_encode_transaction_doc(m, created_text, settled_text),
        ) == Some(m),
{
    if transaction_texts_fit(m, created_text, settled_text) {
        let doc = spec_encode_transaction_doc(m, created_text, settled_text);
        lemma_lookup_at(doc->Obj_0, "transaction"@, 0);
        lemma_transaction_round_trip(m, created_text, settled_text);
    }
}

/// What a list-pots success body encodes to.
pub open spec fn spec_encode_pots_doc(
    ms: Seq<PotModel>,
    created_texts: Seq<Seq<char>>,
    updated_texts: Seq<Seq<char>>,
) -> JsonModel {
    JsonModel::Obj(
        seq![
            (
                "pots"@,
                JsonModel::Arr(
                    Seq::new(
                        ms.len(),
                        |i: int| spec_encode_pot(ms[i], created_texts[i], updated_texts[i]),
                    ),
                ),
            ),
        ],
    )
}

/// Decoding an encoded list-pots body gives back exactly those pots, for
/// all texts that parse to their timestamps.
pub proof fn lemma_pots_round_trip(
    ms: Seq<PotModel>,
    created_texts: Seq<Seq<char>>,
    updated_texts: Seq<Seq<char>>,
)
    ensures
        (ms.len() == created_texts.len() && ms.len() == updated_texts.len() && (forall|i: int|
            0 <= i < ms.len() ==> rfc3339_parse(#[trigger] created_texts[i]) == Some(
                ms[i].created,
            ) && rfc3339_parse(updated_texts[i]) == Some(ms[i].updated)))
            ==> spec_decode_pots_doc(spec_encode_pots_doc(ms, created_texts, updated_texts))
            == Some(ms),
{
    if ms.len() == created_texts.len() && ms.len() == updated_texts.len() && (forall|i: int|
        0 <= i < ms.len() ==> rfc3339_parse(#[trigger] created_texts[i]) == Some(ms[i].created)
            && rfc3339_parse(updated_texts[i]) == Some(ms[i].updated)) {
        let doc = spec_encode_pots_doc(ms, created_texts, updated_texts);
        let obj = doc->Obj_0;
        lemma_lookup_at(obj, "pots"@, 0);
        let a = Seq::new(
            ms.len(),
            |i: int| spec_encode_pot(ms[i], created_texts[i], updated_texts[i]),
        );
        assert forall|i: int| 0 <= i < a.len() implies spec_decode_pot(#[trigger] a[i])
            is Some by {
            lemma_pot_round_trip(ms[i], created_texts[i], updated_texts[i]);
        }
        assert forall|i: int| 0 <= i < a.len() implies spec_decode_pot(#[trigger] a[i])->0
            == ms[i] by {
            lemma_pot_round_trip(ms[i], created_texts[i], updated_texts[i]);
        }
        assert(spec_decode_pots(a)->0 =~= ms);
    }
}

} // verus!
