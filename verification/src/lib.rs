//! A small personal-finance ledger.
//!
//! An [`Account`](account::Account) owns a set of named [`Fund`](fund::Fund)s
//! and a list of [`Transaction`](transaction::Transaction)s; applying the
//! transactions credits or debits the account balance and the targeted fund.
//! All money is held as a whole number of cents, so every deposit and
//! withdrawal is exact: no fractional drift can accumulate.

pub mod account;
pub mod amount;
pub mod fund;
pub mod transaction;

pub use account::Account;
pub use account::FundNotFound;
pub use amount::Amount;
pub use fund::Fund;
pub use fund::FundKind;
pub use transaction::Transaction;
pub use transaction::TransactionKind;
