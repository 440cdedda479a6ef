//! The typed records the upstream API returns.
//!
//! Every record is built exactly once, by decoding a response body, and is
//! read-only from then on. Monetary amounts are signed 64-bit integers in
//! minor units of the currency (pence, cents); they are never floating
//! point. Each record has a mathematical model — the same fields with
//! strings replaced by their views — which the decoding contracts speak of.

use vstd::prelude::*;

use crate::timestamp::Timestamp;

verus! {

/// A store of funds, with a list of transactions.
#[derive(Debug)]
pub struct Account {
    /// The account id.
    pub id: String,
    /// Description of the account.
    pub description: String,
    /// When the account was created.
    pub created: Timestamp,
}

/// The model of an [`Account`].
pub struct AccountModel {
    /// The account id.
    pub id: Seq<char>,
    /// Description of the account.
    pub description: Seq<char>,
    /// When the account was created.
    pub created: Timestamp,
}

impl View for Account {
    type V = AccountModel;

    open spec fn view(&self) -> AccountModel {
        AccountModel { id: self.id@, description: self.description@, created: self.created }
    }
}

impl DeepView for Account {
    type V = AccountModel;

    open spec fn deep_view(&self) -> AccountModel {
        self.view()
    }
}

/// The success shape of the list-accounts endpoint.
#[derive(Debug)]
pub struct Accounts {
    /// The accounts owned by the authorized user.
    pub accounts: Vec<Account>,
}

impl View for Accounts {
    type V = Seq<AccountModel>;

    open spec fn view(&self) -> Seq<AccountModel> {
        self.accounts.deep_view()
    }
}

/// The success shape of the balance endpoint.
#[derive(Debug)]
pub struct Balance {
    /// The available balance, in minor units of the currency.
    pub balance: i64,
    /// The ISO 4217 currency code.
    pub currency: String,
    /// The amount spent from the account today, in minor units.
    pub spend_today: i64,
}

/// The model of a [`Balance`].
pub struct BalanceModel {
    /// The available balance, in minor units of the currency.
    pub balance: i64,
    /// The ISO 4217 currency code.
    pub currency: Seq<char>,
    /// The amount spent from the account today, in minor units.
    pub spend_today: i64,
}

impl View for Balance {
    type V = BalanceModel;

    open spec fn view(&self) -> BalanceModel {
        BalanceModel {
            balance: self.balance,
            currency: self.currency@,
            spend_today: self.spend_today,
        }
    }
}

/// A single transaction on an account.
#[derive(Debug)]
pub struct Transaction {
    /// Balance in the account after the transaction, in minor units.
    pub account_balance: i64,
    /// The signed amount, in minor units; negative for a debit.
    pub amount: i64,
    /// When the transaction was created.
    pub created: Timestamp,
    /// The ISO 4217 currency code.
    pub currency: String,
    /// Description of the transaction.
    pub description: String,
    /// The transaction id.
    pub id: String,
    /// The merchant the transaction was made at, when one is recorded.
    pub merchant: Option<String>,
    /// Key-value annotations on the transaction; keys are unique and their
    /// order carries no meaning.
    pub metadata: Vec<(String, String)>,
    /// Notes attached to the transaction.
    pub notes: String,
    /// Whether the transaction is a top-up load of the account.
    pub is_load: bool,
    /// When the transaction settled; absent while it is only authorised.
    /// The upstream API sends an empty string for "not settled", so both an
    /// omitted field and an empty string decode to `None`.
    pub settled: Option<Timestamp>,
    /// The transaction's category label.
    pub category: String,
    /// Why the transaction was declined; present only on declined ones.
    pub decline_reason: Option<String>,
}

/// The model of a [`Transaction`].
pub struct TransactionModel {
    /// Balance in the account after the transaction, in minor units.
    pub account_balance: i64,
    /// The signed amount, in minor units; negative for a debit.
    pub amount: i64,
    /// When the transaction was created.
    pub created: Timestamp,
    /// The ISO 4217 currency code.
    pub currency: Seq<char>,
    /// Description of the transaction.
    pub description: Seq<char>,
    /// The transaction id.
    pub id: Seq<char>,
    /// The merchant the transaction was made at, when one is recorded.
    pub merchant: Option<Seq<char>>,
    /// Key-value annotations on the transaction.
    pub metadata: Seq<(Seq<char>, Seq<char>)>,
    /// Notes attached to the transaction.
    pub notes: Seq<char>,
    /// Whether the transaction is a top-up load of the account.
    pub is_load: bool,
    /// When the transaction settled; absent while it is only authorised.
    pub settled: Option<Timestamp>,
    /// The transaction's category label.
    pub category: Seq<char>,
    /// Why the transaction was declined; present only on declined ones.
    pub decline_reason: Option<Seq<char>>,
}

impl TransactionModel {
    /// Metadata keys are pairwise distinct.
    pub open spec fn wf(self) -> bool {
        forall|i: int, j: int|
            0 <= i < j < self.metadata.len() ==> self.metadata[i].0 != self.metadata[j].0
    }
}

impl View for Transaction {
    type V = TransactionModel;

    open spec fn view(&self) -> TransactionModel {
        TransactionModel {
            account_balance: self.account_balance,
            amount: self.amount,
            created: self.created,
            currency: self.currency@,
            description: self.description@,
            id: self.id@,
            merchant: self.merchant.deep_view(),
            metadata: self.metadata.deep_view(),
            notes: self.notes@,
            is_load: self.is_load,
            settled: self.settled,
            category: self.category@,
            decline_reason: self.decline_reason.deep_view(),
        }
    }
}

impl DeepView for Transaction {
    type V = TransactionModel;

    open spec fn deep_view(&self) -> TransactionModel {
        self.view()
    }
}

/// The success shape of the list-transactions endpoint.
#[derive(Debug)]
pub struct Transactions {
    /// The transactions on the account.
    pub transactions: Vec<Transaction>,
}

impl View for Transactions {
    type V = Seq<TransactionModel>;

    open spec fn view(&self) -> Seq<TransactionModel> {
        self.transactions.deep_view()
    }
}

/// The success shape of the single-transaction endpoint.
#[derive(Debug)]
pub struct TransactionResponse {
    /// The requested transaction.
    pub transaction: Transaction,
}

impl View for TransactionResponse {
    type V = TransactionModel;

    open spec fn view(&self) -> TransactionModel {
        self.transaction@
    }
}

/// A pot: a sub-account-like savings container.
#[derive(Debug)]
pub struct Pot {
    /// The pot id.
    pub id: String,
    /// The pot's name.
    pub name: String,
    /// The pot's style label.
    pub style: String,
    /// The pot's balance, in minor units of the currency.
    pub balance: i64,
    /// The ISO 4217 currency code.
    pub currency: String,
    /// When the pot was created.
    pub created: Timestamp,
    /// When the pot was last updated.
    pub updated: Timestamp,
    /// Whether the pot has been deleted.
    pub deleted: bool,
}

/// The model of a [`Pot`].
pub struct PotModel {
    /// The pot id.
    pub id: Seq<char>,
    /// The pot's name.
    pub name: Seq<char>,
    /// The pot's style label.
    pub style: Seq<char>,
    /// The pot's balance, in minor units of the currency.
    pub balance: i64,
    /// The ISO 4217 currency code.
    pub currency: Seq<char>,
    /// When the pot was created.
    pub created: Timestamp,
    /// When the pot was last updated.
    pub updated: Timestamp,
    /// Whether the pot has been deleted.
    pub deleted: bool,
}

impl View for Pot {
    type V = PotModel;

    open spec fn view(&self) -> PotModel {
        PotModel {
            id: self.id@,
            name: self.name@,
            style: self.style@,
            balance: self.balance,
            currency: self.currency@,
            created: self.created,
            updated: self.updated,
            deleted: self.deleted,
        }
    }
}

impl DeepView for Pot {
    type V = PotModel;

    open spec fn deep_view(&self) -> PotModel {
        self.view()
    }
}

/// The success shape of the list-pots endpoint.
#[derive(Debug)]
pub struct PotsResponse {
    /// The pots associated with the authorized user.
    pub pots: Vec<Pot>,
}

impl View for PotsResponse {
    type V = Seq<PotModel>;

    open spec fn view(&self) -> Seq<PotModel> {
        self.pots.deep_view()
    }
}

/// The error body the upstream API sends with a non-success status. No field
/// is guaranteed to be present, so all of them are optional; an absent field
/// decodes to `None` rather than failing the decode.
#[derive(Debug)]
pub struct Error {
    /// A short error code.
    pub code: Option<String>,
    /// A short description of the error.
    pub error: Option<String>,
    /// A longer description of the error.
    pub error_description: Option<String>,
    /// Additional information.
    pub message: Option<String>,
}

/// The model of an [`Error`] body.
pub struct ErrorModel {
    /// A short error code.
    pub code: Option<Seq<char>>,
    /// A short description of the error.
    pub error: Option<Seq<char>>,
    /// A longer description of the error.
    pub error_description: Option<Seq<char>>,
    /// Additional information.
    pub message: Option<Seq<char>>,
}

impl View for Error {
    type V = ErrorModel;

    open spec fn view(&self) -> ErrorModel {
        ErrorModel {
            code: self.code.deep_view(),
            error: self.error.deep_view(),
            error_description: self.error_description.deep_view(),
            message: self.message.deep_view(),
        }
    }
}

} // verus!
