use monzo::decode::decode_accounts_doc;
use monzo::decode::decode_balance;
use monzo::decode::decode_error_body;
use monzo::decode::decode_pot;
use monzo::decode::decode_transaction;
use monzo::decode::none_for_empty_string;
use monzo::encode::encode_account;
use monzo::encode::encode_balance;
use monzo::encode::encode_error_body;
use monzo::encode::encode_pot;
use monzo::encode::encode_transaction;
use monzo::errors;
use monzo::Account;
use monzo::Balance;
use monzo::Client;
use monzo::Error;
use monzo::JsonValue;
use monzo::Pot;
use monzo::Timestamp;
use monzo::Transaction;

fn ts(text: &str) -> Timestamp {
    let dt = chrono::DateTime::parse_from_rfc3339(text).unwrap();
    Timestamp {
        secs: dt.timestamp(),
        nanos: dt.timestamp_subsec_nanos(),
    }
}

#[test]
fn balance_round_trip() {
    let b = Balance {
        balance: -250,
        currency: "EUR".to_string(),
        spend_today: 0,
    };
    let decoded = decode_balance(&encode_balance(&b)).unwrap();
    assert_eq!(decoded.balance, -250);
    assert_eq!(decoded.currency.as_str(), "EUR");
    assert_eq!(decoded.spend_today, 0);
}

#[test]
fn error_body_round_trip() {
    let e = Error {
        code: Some("forbidden.x".to_string()),
        error: None,
        error_description: None,
        message: Some("nope".to_string()),
    };
    let decoded = decode_error_body(&encode_error_body(&e)).unwrap();
    assert_eq!(decoded.code, Some("forbidden.x".to_string()));
    assert_eq!(decoded.error, None);
    assert_eq!(decoded.error_description, None);
    assert_eq!(decoded.message, Some("nope".to_string()));
}

#[test]
fn account_round_trip() {
    let created = "2015-11-13T12:17:42+00:00";
    let a = Account {
        id: "acc_1".to_string(),
        description: "An account".to_string(),
        created: ts(created),
    };
    let decoded = decode_account_via_doc(&a, created);
    assert_eq!(decoded.id.as_str(), "acc_1");
    assert_eq!(decoded.description.as_str(), "An account");
    assert_eq!(decoded.created, ts(created));
}

fn decode_account_via_doc(a: &Account, created: &str) -> Account {
    let doc = JsonValue::Obj(vec![(
        "accounts".to_string(),
        JsonValue::Arr(vec![encode_account(a, created)]),
    )]);
    let mut accounts = decode_accounts_doc(&doc).unwrap();
    assert_eq!(accounts.accounts.len(), 1);
    accounts.accounts.pop().unwrap()
}

#[test]
fn pot_round_trip() {
    let created = "2017-11-09T12:30:53.695+00:00";
    let updated = "2017-11-09T13:30:53.695+00:00";
    let p = Pot {
        id: "pot_1".to_string(),
        name: "Savings".to_string(),
        style: "beach_ball".to_string(),
        balance: 133700,
        currency: "GBP".to_string(),
        created: ts(created),
        updated: ts(updated),
        deleted: true,
    };
    let decoded = decode_pot(&encode_pot(&p, created, updated)).unwrap();
    assert_eq!(decoded.id.as_str(), "pot_1");
    assert_eq!(decoded.name.as_str(), "Savings");
    assert_eq!(decoded.style.as_str(), "beach_ball");
    assert_eq!(decoded.balance, 133700);
    assert_eq!(decoded.currency.as_str(), "GBP");
    assert_eq!(decoded.created, ts(created));
    assert_eq!(decoded.updated, ts(updated));
    assert_eq!(decoded.deleted, true);
}

#[test]
fn transaction_round_trip() {
    let created = "2015-08-22T12:20:18+00:00";
    let settled = "2015-08-23T12:20:18+00:00";
    let t = Transaction {
        account_balance: 13013,
        amount: -510,
        created: ts(created),
        currency: "GBP".to_string(),
        description: "A sandwich".to_string(),
        id: "tx_1".to_string(),
        merchant: Some("merch_1".to_string()),
        metadata: vec![("seen".to_string(), "yes".to_string())],
        notes: "notes".to_string(),
        is_load: false,
        settled: Some(ts(settled)),
        category: "eating_out".to_string(),
        decline_reason: None,
    };
    let decoded = decode_transaction(&encode_transaction(&t, created, settled)).unwrap();
    assert_eq!(decoded.account_balance, 13013);
    assert_eq!(decoded.amount, -510);
    assert_eq!(decoded.created, ts(created));
    assert_eq!(decoded.currency.as_str(), "GBP");
    assert_eq!(decoded.description.as_str(), "A sandwich");
    assert_eq!(decoded.id.as_str(), "tx_1");
    assert_eq!(decoded.merchant, Some("merch_1".to_string()));
    assert_eq!(
        decoded.metadata,
        vec![("seen".to_string(), "yes".to_string())]
    );
    assert_eq!(decoded.notes.as_str(), "notes");
    assert_eq!(decoded.is_load, false);
    assert_eq!(decoded.settled, Some(ts(settled)));
    assert_eq!(decoded.category.as_str(), "eating_out");
    assert_eq!(decoded.decline_reason, None);
}

#[test]
fn transaction_round_trip_absent_settlement() {
    let created = "2015-08-22T12:20:18+00:00";
    let t = Transaction {
        account_balance: 0,
        amount: 100,
        created: ts(created),
        currency: "GBP".to_string(),
        description: "top-up".to_string(),
        id: "tx_2".to_string(),
        merchant: None,
        metadata: vec![],
        notes: String::new(),
        is_load: true,
        settled: None,
        category: "mondo".to_string(),
        decline_reason: None,
    };
    // An absent settlement is written as the empty string, as upstream does.
    let decoded = decode_transaction(&encode_transaction(&t, created, "")).unwrap();
    assert_eq!(decoded.settled, None);
    assert_eq!(decoded.merchant, None);
    assert_eq!(decoded.is_load, true);
}

#[test]
fn empty_string_means_absent() {
    assert_eq!(none_for_empty_string(""), Some(None));
    let parsed = none_for_empty_string("2015-08-23T12:20:18Z");
    assert_eq!(parsed, Some(Some(ts("2015-08-23T12:20:18+00:00"))));
    assert_eq!(none_for_empty_string("not a timestamp"), None);
}

#[test]
fn timestamp_is_parsed_not_copied() {
    // 2015-11-13T12:17:42Z is 1447417062 seconds after the epoch.
    let body = "{
        \"accounts\": [
            {\"id\": \"a\", \"description\": \"d\", \"created\": \"2015-11-13T12:17:42Z\"}
        ]
    }";
    let a = monzo::decode_accounts_response(200, body).unwrap();
    assert_eq!(a.accounts[0].created.secs, 1447417062);
    assert_eq!(a.accounts[0].created.nanos, 0);
}

#[test]
fn bad_timestamp_is_decode_error() {
    let body = "{
        \"accounts\": [
            {\"id\": \"a\", \"description\": \"d\", \"created\": \"tomorrow-ish\"}
        ]
    }";
    let err = monzo::decode_accounts_response(200, body).unwrap_err();
    assert!(matches!(
        err,
        errors::Error::BadJsonResponse(errors::DecodeFault::Shape)
    ));
}

#[test]
fn missing_field_is_decode_error() {
    let body = "{\"balance\": 5000, \"currency\": \"GBP\"}";
    let err = monzo::decode_balance_response(200, body).unwrap_err();
    assert!(matches!(
        err,
        errors::Error::BadJsonResponse(errors::DecodeFault::Shape)
    ));
}

#[test]
fn fractional_amount_is_decode_error() {
    let body = "{\"balance\": 5000.5, \"currency\": \"GBP\", \"spend_today\": 0}";
    let err = monzo::decode_balance_response(200, body).unwrap_err();
    assert!(matches!(
        err,
        errors::Error::BadJsonResponse(errors::DecodeFault::Shape)
    ));
}

#[test]
fn syntax_error_carries_parser_message() {
    let err = monzo::decode_balance_response(200, "{ badjson ").unwrap_err();
    match err {
        errors::Error::BadJsonResponse(errors::DecodeFault::Syntax(m)) => {
            assert!(!m.is_empty());
        }
        _ => panic!("expected a syntax failure"),
    }
}

#[test]
fn error_status_with_sparse_body_still_business_error() {
    // Absent fields of the error body are absent values, not failures.
    let err = monzo::decode_balance_response(503, "{}").unwrap_err();
    match err {
        errors::Error::BadResponse(status, e) => {
            assert_eq!(status, 503);
            assert_eq!(e.code, None);
            assert_eq!(e.error, None);
            assert_eq!(e.error_description, None);
            assert_eq!(e.message, None);
        }
        _ => panic!("expected a business error"),
    }
}

#[test]
fn error_status_with_bad_json_is_decode_error() {
    let err = monzo::decode_balance_response(500, "not json").unwrap_err();
    assert!(matches!(
        err,
        errors::Error::BadJsonResponse(errors::DecodeFault::Syntax(_))
    ));
}

#[test]
fn empty_account_list_decodes() {
    let a = monzo::decode_accounts_response(200, "{\"accounts\": []}").unwrap();
    assert_eq!(a.accounts.len(), 0);
}

#[test]
fn repeated_metadata_keys_keep_the_last_value() {
    // The JSON parser resolves a repeated key to its last value, so the
    // decoded mapping has unique keys.
    let body = "{
        \"transaction\": {
            \"account_balance\": 1,
            \"amount\": 1,
            \"created\": \"2015-08-22T12:20:18Z\",
            \"currency\": \"GBP\",
            \"description\": \"d\",
            \"id\": \"tx\",
            \"metadata\": {\"a\": \"first\", \"a\": \"second\"},
            \"notes\": \"\",
            \"is_load\": false,
            \"settled\": \"\",
            \"category\": \"general\"
        }
    }";
    let tr = monzo::decode_transaction_response(200, body).unwrap();
    assert_eq!(
        tr.transaction.metadata,
        vec![("a".to_string(), "second".to_string())]
    );
}

#[test]
fn query_values_are_form_encoded() {
    let monzo = Client::new_with_base_url("token", String::from("http://stub.test"));
    let request = monzo.balance_request("some id/x").unwrap();
    assert_eq!(
        request.url,
        "http://stub.test/balance?account_id=some+id%2Fx"
    );
}

#[test]
fn path_segments_are_percent_encoded() {
    let monzo = Client::new_with_base_url("token", String::from("http://stub.test"));
    let request = monzo.transaction_request("acc", "t x").unwrap();
    assert_eq!(
        request.url,
        "http://stub.test/transactions/t%20x?account_id=acc"
    );
}

#[test]
fn bearer_header_carries_token_verbatim() {
    let monzo = Client::new("secret-token");
    let request = monzo.accounts_request().unwrap();
    assert_eq!(request.url, "https://api.monzo.com/accounts");
    assert_eq!(request.authorization(), "Bearer secret-token");
}

#[test]
fn unusable_base_url_is_rejected() {
    let monzo = Client::new_with_base_url("token", String::from("not a url"));
    assert!(monzo.accounts_request().is_none());
    assert!(monzo.balance_request("x").is_none());
}
