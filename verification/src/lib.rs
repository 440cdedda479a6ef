//! A client library for the Monzo banking API.
//!
//! The library is split along the boundary between computation and I/O:
//! everything that can be stated and proved — building request URLs,
//! classifying HTTP status codes, decoding JSON response bodies into typed
//! records, and the error taxonomy — lives here, with contracts. The single
//! HTTP round trip per call is left to the embedding application, which hands
//! the raw status code and body back to [`decode`] and friends.

pub mod client;
pub mod decode;
pub mod encode;
pub mod errors;
pub mod json;
pub mod records;
pub mod timestamp;

pub use client::ApiRequest;
pub use client::ApiRequestModel;
pub use client::Client;
pub use client::ClientModel;
pub use decode::decode_accounts_response;
pub use decode::decode_balance_response;
pub use decode::decode_pots_response;
pub use decode::decode_transaction_response;
pub use decode::decode_transactions_response;
pub use json::JsonModel;
pub use json::JsonValue;
pub use json::parse_json;
pub use records::Account;
pub use records::AccountModel;
pub use records::Accounts;
pub use records::Balance;
pub use records::BalanceModel;
pub use records::Error;
pub use records::ErrorModel;
pub use records::Pot;
pub use records::PotModel;
pub use records::PotsResponse;
pub use records::Transaction;
pub use records::TransactionModel;
pub use records::TransactionResponse;
pub use records::Transactions;
pub use timestamp::Timestamp;
