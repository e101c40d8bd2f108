//! A per-client ledger of available and held funds, driven by a stream of
//! deposit, withdrawal, dispute, resolve and chargeback records.

pub mod account;
pub mod amount;
pub mod laws;
pub mod ledger;
pub mod transaction;

pub use account::{Account, Accounts, ClientId, RawAccount};
pub use amount::{deserialize_amount, serialize_amount, Amount};
pub use ledger::Ledger;
pub use transaction::{RawTransaction, Transaction, TransactionId, TransactionType};
