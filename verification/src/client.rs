//! The client: credentials, base URL, and request building.
//!
//! A client is a plain value holding the access token and the base URL; it
//! has no per-call mutable state. Each endpoint method builds the request to
//! send — the full URL and the bearer credential — as plain data. Sending it
//! is the embedding application's job; URL syntax, percent-encoding of path
//! segments and form-encoding of query pairs are the `url` crate's, behind
//! trusted wrappers.

use vstd::prelude::*;

verus! {

/// What appending one path segment to a URL yields, as `url::Url::parse`
/// followed by `PathSegmentsMut::push` computes it (the segment gets
/// percent-encoded); `None` when the base does not parse as an absolute URL
/// or cannot carry path segments.
pub uninterp spec fn url_with_segment(base: Seq<char>, segment: Seq<char>) -> Option<Seq<char>>;

/// Relies on `url::Url::parse`, `Url::path_segments_mut` and
/// `PathSegmentsMut::push`: pure functions of the strings involved.
#[verifier::external_body]
fn push_url_segment(base: &str, segment: &str) -> (r: Option<String>)
    ensures
        r is Some <==> url_with_segment(base@, segment@) is Some,
        r matches Some(s) ==> url_with_segment(base@, segment@) == Some(s@),
{
    let mut u = match url::Url::parse(base) {
        Ok(u) => u,
        Err(_) => return None,
    };
    match u.path_segments_mut() {
        Ok(mut p) => {
            p.push(segment);
        },
        Err(_) => return None,
    }
    Some(String::from(u))
}

/// What appending one query pair to a URL yields, as `url::Url::parse`
/// followed by `Serializer::append_pair` computes it (key and value get
/// form-urlencoded); `None` when the base does not parse as an absolute URL.
pub uninterp spec fn url_with_query(base: Seq<char>, key: Seq<char>, value: Seq<char>) -> Option<
    Seq<char>,
>;

/// Relies on `url::Url::parse`, `Url::query_pairs_mut` and
/// `Serializer::append_pair`: pure functions of the strings involved.
#[verifier::external_body]
fn push_url_query(base: &str, key: &str, value: &str) -> (r: Option<String>)
    ensures
        r is Some <==> url_with_query(base@, key@, value@) is Some,
        r matches Some(s) ==> url_with_query(base@, key@, value@) == Some(s@),
{
    let mut u = match url::Url::parse(base) {
        Ok(u) => u,
        Err(_) => return None,
    };
    u.query_pairs_mut().append_pair(key, value);
    Some(String::from(u))
}

/// A request ready to send: one GET to `url`, with no body, carrying the
/// access token as a bearer credential in the `Authorization` header.
#[derive(Debug)]
pub struct ApiRequest {
    /// The full request URL.
    pub url: String,
    /// The access token to send as the bearer credential.
    pub access_token: String,
}

/// The model of an [`ApiRequest`].
pub struct ApiRequestModel {
    /// The full request URL.
    pub url: Seq<char>,
    /// The access token to send as the bearer credential.
    pub access_token: Seq<char>,
}

impl View for ApiRequest {
    type V = ApiRequestModel;

    open spec fn view(&self) -> ApiRequestModel {
        ApiRequestModel { url: self.url@, access_token: self.access_token@ }
    }
}

impl ApiRequest {
    /// The value of the request's `Authorization` header: the word `Bearer`
    /// and the access token verbatim.
    pub fn authorization(&self) -> (r: String)
        ensures
            r@ == "Bearer "@ + self@.access_token,
    {
        let mut s = String::from_str("Bearer ");
        s.append(self.access_token.as_str());
        s
    }
}

/// The main interface for this crate: a plain value holding the access
/// token and the base URL.
#[derive(Debug)]
pub struct Client {
    access_token: String,
    base_url: String,
}

/// The model of a [`Client`].
pub struct ClientModel {
    /// The access token sent with every request.
    pub access_token: Seq<char>,
    /// The base URL requests are built against.
    pub base_url: Seq<char>,
}

impl View for Client {
    type V = ClientModel;

    closed spec fn view(&self) -> ClientModel {
        ClientModel { access_token: self.access_token@, base_url: self.base_url@ }
    }
}

/// The URL of the list-accounts endpoint: the base URL with the `accounts`
/// segment appended.
pub open spec fn spec_accounts_url(c: ClientModel) -> Option<Seq<char>> {
    url_with_segment(c.base_url, "accounts"@)
}

/// The URL of the balance endpoint: the base URL with the `balance` segment
/// and the `account_id` query pair.
pub open spec fn spec_balance_url(c: ClientModel, account_id: Seq<char>) -> Option<Seq<char>> {
    match url_with_segment(c.base_url, "balance"@) {
        Some(u) => url_with_query(u, "account_id"@, account_id),
        None => None,
    }
}

/// The URL of the list-transactions endpoint: the base URL with the
/// `transactions` segment and the `account_id` query pair.
pub open spec fn spec_transactions_url(c: ClientModel, account_id: Seq<char>) -> Option<
    Seq<char>,
> {
    match url_with_segment(c.base_url, "transactions"@) {
        Some(u) => url_with_query(u, "account_id"@, account_id),
        None => None,
    }
}

/// The URL of the single-transaction endpoint: the base URL with the
/// `transactions` segment and the transaction id appended, and the
/// `account_id` query pair.
pub open spec fn spec_transaction_url(
    c: ClientModel,
    account_id: Seq<char>,
    transaction_id: Seq<char>,
) -> Option<Seq<char>> {
    match url_with_segment(c.base_url, "transactions"@) {
        Some(u) => match url_with_segment(u, transaction_id) {
            Some(u2) => url_with_query(u2, "account_id"@, account_id),
            None => None,
        },
        None => None,
    }
}

/// The URL of the list-pots endpoint: the base URL with the `pots` and
/// `listV1` segments appended.
pub open spec fn spec_pots_url(c: ClientModel) -> Option<Seq<char>> {
    match url_with_segment(c.base_url, "pots"@) {
        Some(u) => url_with_segment(u, "listV1"@),
        None => None,
    }
}

impl Client {
    /// Creates a client against the production API host.
    pub fn new(access_token: &str) -> (c: Client)
        ensures
            c@.access_token == access_token@,
            c@.base_url == "https://api.monzo.com"@,
    {
        Client::new_with_base_url(access_token, String::from_str("https://api.monzo.com"))
    }

    /// Creates a client with another base URL. Useful for tests.
    pub fn new_with_base_url(access_token: &str, base_url: String) -> (c: Client)
        ensures
            c@.access_token == access_token@,
            c@.base_url == base_url@,
    {
        Client { access_token: String::from_str(access_token), base_url }
    }

    /// The request for the list-accounts endpoint; `None` when the base URL
    /// cannot carry a path.
    pub fn accounts_request(&self) -> (r: Option<ApiRequest>)
        ensures
            r is Some <==> spec_accounts_url(self@) is Some,
            r matches Some(q) ==> Some(q@.url) == spec_accounts_url(self@) && q@.access_token
                == self@.access_token,
    {
        match push_url_segment(self.base_url.as_str(), "accounts") {
            Some(url) => Some(ApiRequest { url, access_token: self.access_token.clone() }),
            None => None,
        }
    }

    /// The request for the balance endpoint; `None` when the base URL cannot
    /// carry a path.
    pub fn balance_request(&self, account_id: &str) -> (r: Option<ApiRequest>)
        ensures
            r is Some <==> spec_balance_url(self@, account_id@) is Some,
            r matches Some(q) ==> Some(q@.url) == spec_balance_url(self@, account_id@)
                && q@.access_token == self@.access_token,
    {
        let with_path = match push_url_segment(self.base_url.as_str(), "balance") {
            Some(u) => u,
            None => {
                return None;
            },
        };
        match push_url_query(with_path.as_str(), "account_id", account_id) {
            Some(url) => Some(ApiRequest { url, access_token: self.access_token.clone() }),
            None => None,
        }
    }

    /// The request for the list-transactions endpoint; `None` when the base
    /// URL cannot carry a path.
    pub fn transactions_request(&self, account_id: &str) -> (r: Option<ApiRequest>)
        ensures
            r is Some <==> spec_transactions_url(self@, account_id@) is Some,
            r matches Some(q) ==> Some(q@.url) == spec_transactions_url(self@, account_id@)
                && q@.access_token == self@.access_token,
    {
        let with_path = match push_url_segment(self.base_url.as_str(), "transactions") {
            Some(u) => u,
            None => {
                return None;
            },
        };
        match push_url_query(with_path.as_str(), "account_id", account_id) {
            Some(url) => Some(ApiRequest { url, access_token: self.access_token.clone() }),
            None => None,
        }
    }

    /// The request for the single-transaction endpoint; `None` when the base
    /// URL cannot carry a path.
    pub fn transaction_request(&self, account_id: &str, transaction_id: &str) -> (r: Option<
        ApiRequest,
    >)
        ensures
            r is Some <==> spec_transaction_url(self@, account_id@, transaction_id@) is Some,
            r matches Some(q) ==> Some(q@.url) == spec_transaction_url(
                self@,
                account_id@,
                transaction_id@,
            ) && q@.access_token == self@.access_token,
    {
        let with_path = match push_url_segment(self.base_url.as_str(), "transactions") {
            Some(u) => u,
            None => {
                return None;
            },
        };
        let with_id = match push_url_segment(with_path.as_str(), transaction_id) {
            Some(u) => u,
            None => {
                return None;
            },
        };
        match push_url_query(with_id.as_str(), "account_id", account_id) {
            Some(url) => Some(ApiRequest { url, access_token: self.access_token.clone() }),
            None => None,
        }
    }

    /// The request for the list-pots endpoint; `None` when the base URL
    /// cannot carry a path.
    pub fn pots_request(&self) -> (r: Option<ApiRequest>)
        ensures
            r is Some <==> spec_pots_url(self@) is Some,
            r matches Some(q) ==> Some(q@.url) == spec_pots_url(self@) && q@.access_token
                == self@.access_token,
    {
        let with_pots = match push_url_segment(self.base_url.as_str(), "pots") {
            Some(u) => u,
            None => {
                return None;
            },
        };
        match push_url_segment(with_pots.as_str(), "listV1") {
            Some(url) => Some(ApiRequest { url, access_token: self.access_token.clone() }),
            None => None,
        }
    }
}

} // verus!
