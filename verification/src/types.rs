//! Value types of the ledger: amounts, identifiers and transactions.

pub mod fixed_float;
pub mod transaction;

pub use fixed_float::FixedFloat;
pub use transaction::ClientId;
pub use transaction::Transaction;
pub use transaction::TransactionFields;
pub use transaction::TransactionFieldsError;
pub use transaction::TransactionId;
pub use transaction::TransactionInner;
pub use transaction::TransactionState;
