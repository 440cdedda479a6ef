use monzo::errors;
use monzo::Accounts;
use monzo::Balance;
use monzo::Client;
use monzo::PotsResponse;
use monzo::Timestamp;
use monzo::TransactionResponse;
use monzo::Transactions;

fn ts(text: &str) -> Timestamp {
    let dt = chrono::DateTime::parse_from_rfc3339(text).unwrap();
    Timestamp {
        secs: dt.timestamp(),
        nanos: dt.timestamp_subsec_nanos(),
    }
}

fn create_monzo() -> Client {
    Client::new_with_base_url("token", String::from("http://stub.test"))
}

#[test]
fn accounts() {
    let monzo = create_monzo();
    let request = monzo.accounts_request().unwrap();
    assert_eq!(request.url, "http://stub.test/accounts");
    assert_eq!(request.access_token, "token");
    let body = "{
                \"accounts\": [
                    {
                        \"id\": \"acc_00009237aqC8c5umZmrRdh\",
                        \"description\": \"Peter Pan's Account\",
                        \"created\": \"2015-11-13T12:17:42Z\"
                    }
                ]
            }";
    let a: Accounts = monzo::decode_accounts_response(200, body).unwrap();
    assert_eq!(a.accounts.len(), 1);
    assert_eq!(a.accounts[0].id.as_str(), "acc_00009237aqC8c5umZmrRdh");
    assert_eq!(a.accounts[0].description.as_str(), "Peter Pan's Account");
    assert_eq!(a.accounts[0].created, ts("2015-11-13T12:17:42+00:00"));
}

#[test]
fn balance() {
    let monzo = create_monzo();
    let request = monzo.balance_request("some_id").unwrap();
    assert_eq!(request.url, "http://stub.test/balance?account_id=some_id");
    let body = "{
                \"balance\": 5000,
                \"currency\": \"GBP\",
                \"spend_today\": 100
            }";
    let b: Balance = monzo::decode_balance_response(200, body).unwrap();
    assert_eq!(b.balance, 5000);
    assert_eq!(b.currency.as_str(), "GBP");
    assert_eq!(b.spend_today, 100);
}

#[test]
fn transactions() {
    let monzo = create_monzo();
    let request = monzo.transactions_request("some_id").unwrap();
    assert_eq!(
        request.url,
        "http://stub.test/transactions?account_id=some_id"
    );
    let body = "{
                \"transactions\": [
                    {
                        \"account_balance\": 13013,
                        \"amount\": -510,
                        \"created\": \"2015-08-22T12:20:18Z\",
                        \"currency\": \"GBP\",
                        \"description\": \"THE DE BEAUVOIR DELI C LONDON GBR\",
                        \"merchant\": \"merch_00008zIcpbAKe8shBxXUtl\",
                        \"id\": \"tx_00008zIcpb1TB4yeIFXMzx\",
                        \"metadata\": {
                            \"seen\": \"2015-09-15T10:19:17Z\"
                        },
                        \"notes\": \"Salmon sandwich \u{f0}\u{178}\u{17e}\",
                        \"is_load\": false,
                        \"settled\": \"2015-08-23T12:20:18Z\",
                        \"category\": \"eating_out\"
                    }
                ]
            }";
    let tsx: Transactions = monzo::decode_transactions_response(200, body).unwrap();
    assert_eq!(tsx.transactions.len(), 1);
    let t = &tsx.transactions[0];
    assert_eq!(t.account_balance, 13013);
    assert_eq!(t.amount, -510);
    assert_eq!(t.created, ts("2015-08-22T12:20:18+00:00"));
    assert_eq!(t.currency.as_str(), "GBP");
    assert_eq!(t.description.as_str(), "THE DE BEAUVOIR DELI C LONDON GBR");
    assert_eq!(
        t.merchant,
        Some("merch_00008zIcpbAKe8shBxXUtl".to_string())
    );
    assert_eq!(t.id.as_str(), "tx_00008zIcpb1TB4yeIFXMzx");
    assert_eq!(t.metadata.len(), 1);
    assert_eq!(t.notes.as_str(), "Salmon sandwich \u{f0}\u{178}\u{17e}");
    assert_eq!(t.is_load, false);
    assert_eq!(t.settled.unwrap(), ts("2015-08-23T12:20:18+00:00"));
    assert_eq!(t.category.as_str(), "eating_out");
    assert_eq!(t.decline_reason, None);
}

#[test]
fn transactions_declined_no_merchant_no_settled() {
    let body = "{
                \"transactions\": [
                    {
                        \"account_balance\": 13013,
                        \"amount\": -510,
                        \"created\": \"2015-08-22T12:20:18Z\",
                        \"currency\": \"GBP\",
                        \"description\": \"THE DE BEAUVOIR DELI C LONDON GBR\",
                        \"merchant\": null,
                        \"id\": \"tx_00008zIcpb1TB4yeIFXMzx\",
                        \"metadata\": {},
                        \"notes\": \"Salmon sandwich \u{f0}\u{178}\u{17e}\",
                        \"is_load\": false,
                        \"settled\": \"\",
                        \"category\": \"eating_out\",
                        \"decline_reason\": \"CARD_INACTIVE\"
                    }
                ]
            }";
    let tsx = monzo::decode_transactions_response(200, body).unwrap();
    let t = &tsx.transactions[0];
    assert_eq!(t.decline_reason, Some("CARD_INACTIVE".to_string()));
    assert_eq!(t.merchant, None);
    assert_eq!(t.settled, None);
}

#[test]
fn transaction() {
    let monzo = create_monzo();
    let request = monzo.transaction_request("some_id", "some_t_id").unwrap();
    assert_eq!(
        request.url,
        "http://stub.test/transactions/some_t_id?account_id=some_id"
    );
    let body = "{
                \"transaction\": {
                    \"account_balance\": 13013,
                    \"amount\": -510,
                    \"created\": \"2015-08-22T12:20:18Z\",
                    \"currency\": \"GBP\",
                    \"description\": \"THE DE BEAUVOIR DELI C LONDON GBR\",
                    \"merchant\": \"merch_00008zIcpbAKe8shBxXUtl\",
                    \"id\": \"tx_00008zIcpb1TB4yeIFXMzx\",
                    \"metadata\": {
                        \"seen\": \"2015-09-15T10:19:17Z\"
                    },
                    \"notes\": \"Salmon sandwich \u{f0}\u{178}\u{17e}\",
                    \"is_load\": false,
                    \"settled\": \"2015-08-23T12:20:18Z\",
                    \"category\": \"eating_out\"
                }
            }";
    let tr: TransactionResponse = monzo::decode_transaction_response(200, body).unwrap();
    assert_eq!(tr.transaction.account_balance, 13013);
    // No point in testing Transaction decoding further.
}

#[test]
fn pots() {
    let monzo = create_monzo();
    let request = monzo.pots_request().unwrap();
    assert_eq!(request.url, "http://stub.test/pots/listV1");
    let body = "{
                \"pots\": [
                    {
                        \"id\": \"pot_0000778xxfgh4iu8z83nWb\",
                        \"name\": \"Savings\",
                        \"style\": \"beach_ball\",
                        \"balance\": 133700,
                        \"currency\": \"GBP\",
                        \"created\": \"2017-11-09T12:30:53.695Z\",
                        \"updated\": \"2017-11-09T13:30:53.695Z\",
                        \"deleted\": false
                    }
                ]
            }";
    let pots: PotsResponse = monzo::decode_pots_response(200, body).unwrap();
    let pot = &pots.pots[0];
    assert_eq!(pot.id.as_str(), "pot_0000778xxfgh4iu8z83nWb");
    assert_eq!(pot.name.as_str(), "Savings");
    assert_eq!(pot.style.as_str(), "beach_ball");
    assert_eq!(pot.balance, 133700);
    assert_eq!(pot.currency.as_str(), "GBP");
    assert_eq!(pot.created, ts("2017-11-09T12:30:53.695+00:00"));
    assert_eq!(pot.updated, ts("2017-11-09T13:30:53.695+00:00"));
    assert_eq!(pot.deleted, false);
}

#[test]
fn unauthorized() {
    let body = "{
            \"code\": \"unauthorized.bad_access_token\",
            \"error\": \"invalid_token\",
            \"error_description\": \"expired1\",
            \"message\": \"expired2\"
        }";
    let response_error = monzo::decode_balance_response(401, body).unwrap_err();
    match response_error {
        errors::Error::BadResponse(statuscode, e) => {
            assert_eq!(statuscode, 401);
            assert_eq!(e.code, Some("unauthorized.bad_access_token".to_string()));
            assert_eq!(e.error, Some("invalid_token".to_string()));
            assert_eq!(e.error_description, Some("expired1".to_string()));
            assert_eq!(e.message, Some("expired2".to_string()));
        }
        _ => panic!("Incorrect error type"),
    }
}

#[test]
fn bad_json() {
    let response_error = monzo::decode_balance_response(200, "{ badjson ").unwrap_err();
    match response_error {
        errors::Error::BadJsonResponse(_) => {}
        _ => panic!("Incorrect error type"),
    }
}
