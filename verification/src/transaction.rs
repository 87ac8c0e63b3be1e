//! Transactions: immutable records of a single dated monetary movement.

use vstd::prelude::*;

verus! {

/// Whether a transaction takes money out of an account or puts money in.
#[derive(Clone, Copy, Debug, PartialEq, Eq, Structural)]
pub enum TransactionKind {
    Withdrawal,
    Deposit,
}

/// One monetary movement: a date, a kind, an amount in cents, the name of the
/// fund it targets, the counterparty entity, and a free-text description.
///
/// A transaction is immutable once created. No validation is performed at
/// construction: the amount may be zero or negative, and the fund name is
/// checked against an account's funds only when the transaction is applied.
#[derive(Clone, Debug)]
pub struct Transaction {
    pub date: String,
    pub kind: TransactionKind,
    pub amount: i64,
    pub fund: String,
    pub entity: String,
    pub description: String,
}

/// The signed effect of a transaction on a balance, in cents: positive for a
/// deposit, negative for a withdrawal.
pub open spec fn txn_delta(t: Transaction) -> int {
    match t.kind {
        TransactionKind::Deposit => t.amount as int,
        TransactionKind::Withdrawal => -(t.amount as int),
    }
}

/// Relies on `std::time::SystemTime::now` for the clock and on
/// `chrono::DateTime::from_timestamp` and `chrono::DateTime::format` to
/// render the current instant as display text. The result depends on the
/// clock, so nothing is stated of it. A clock before the Unix epoch or
/// beyond chrono's date range yields a fixed fallback string, so the call
/// returns on every clock state.
#[verifier::external_body]
fn current_date_string() -> String {
    let since_epoch = match std::time::SystemTime::now().duration_since(std::time::UNIX_EPOCH) {
        Ok(d) => d,
        Err(_) => return String::from("Thu Jan  1 1970"),
    };
    match chrono::DateTime::from_timestamp(since_epoch.as_secs() as i64, since_epoch.subsec_nanos())
    {
        Some(t) => t.format("%a %b %e %Y").to_string(),
        None => String::from("Thu Jan  1 1970"),
    }
}

impl Transaction {
    fn new(
        date: String,
        kind: TransactionKind,
        amount: i64,
        fund: String,
        entity: String,
        description: String,
    ) -> (t: Transaction)
        ensures
            t.kind == kind,
            t.amount == amount,
            t.date@ == date@,
            t.fund@ == fund@,
            t.entity@ == entity@,
            t.description@ == description@,
    {
        Transaction { date, kind, amount, fund, entity, description }
    }

    /// A withdrawal of `amount` cents from the named fund, stamped with the
    /// current date.
    pub fn withdrawal(amount: i64, fund: String, entity: String, description: String) -> (t:
        Transaction)
        ensures
            t.kind == TransactionKind::Withdrawal,
            t.amount == amount,
            t.fund@ == fund@,
            t.entity@ == entity@,
            t.description@ == description@,
            txn_delta(t) == -(amount as int),
    {
        Transaction::new(
            current_date_string(),
            TransactionKind::Withdrawal,
            amount,
            fund,
            entity,
            description,
        )
    }

    /// A deposit of `amount` cents into the named fund, stamped with the
    /// current date.
    pub fn deposit(amount: i64, fund: String, entity: String, description: String) -> (t:
        Transaction)
        ensures
            t.kind == TransactionKind::Deposit,
            t.amount == amount,
            t.fund@ == fund@,
            t.entity@ == entity@,
            t.description@ == description@,
            txn_delta(t) == amount as int,
    {
        Transaction::new(
            current_date_string(),
            TransactionKind::Deposit,
            amount,
            fund,
            entity,
            description,
        )
    }
}

} // verus!
