//! Accounts: a named balance, a set of funds, and the transactions that are
//! replayed into them.
//!
//! The balance and each fund's current amount are derived state: they reflect
//! the cumulative effect of the transactions that have been processed. The
//! spec functions here ([`replay_funds`], [`sum_txn_deltas`]) give that replay
//! its mathematical meaning, and every mutating operation is specified
//! against them.

use crate::amount::Amount;
use crate::amount::fits_cents;
use crate::fund::Fund;
use crate::transaction::Transaction;
use crate::transaction::TransactionKind;
use crate::transaction::txn_delta;
use vstd::prelude::*;

verus! {

/// Raised when a transaction names a fund the account does not hold. The
/// lookup reports this explicitly instead of handing back an out-of-range
/// index.
#[derive(Clone, Copy, Debug, PartialEq, Eq, Structural)]
pub struct FundNotFound;

/// `true` when some fund in the sequence carries the given name.
pub open spec fn has_fund(funds: Seq<Fund>, name: Seq<char>) -> bool {
    exists|i: int| 0 <= i < funds.len() && funds[i].name@ == name
}

/// The index of the first fund with the given name; the sequence's length
/// when no fund matches.
pub open spec fn spec_fund_index(funds: Seq<Fund>, name: Seq<char>) -> int
    decreases funds.len(),
{
    if funds.len() == 0 {
        0
    } else if funds[0].name@ == name {
        0
    } else {
        1 + spec_fund_index(funds.drop_first(), name)
    }
}

/// What [`spec_fund_index`] returns: the first matching position when the
/// name is present, the length when it is not.
pub proof fn lemma_fund_index(funds: Seq<Fund>, name: Seq<char>)
    ensures
        0 <= spec_fund_index(funds, name) <= funds.len(),
        has_fund(funds, name) <==> spec_fund_index(funds, name) < funds.len(),
        has_fund(funds, name) ==> funds[spec_fund_index(funds, name)].name@ == name,
        forall|j: int| 0 <= j < spec_fund_index(funds, name) ==> funds[j].name@ != name,
    decreases funds.len(),
{
    if funds.len() > 0 && funds[0].name@ != name {
        lemma_fund_index(funds.drop_first(), name);
        let rest = funds.drop_first();
        assert(forall|j: int| 0 <= j < rest.len() ==> rest[j] == funds[j + 1]);
        assert forall|j: int| 0 <= j < spec_fund_index(funds, name) implies funds[j].name@
            != name by {
            if j > 0 {
                assert(rest[j - 1] == funds[j]);
            }
        }
        if has_fund(funds, name) {
            let i = choose|i: int| 0 <= i < funds.len() && funds[i].name@ == name;
            assert(rest[i - 1].name@ == name);
        }
        if has_fund(rest, name) {
            let i = choose|i: int| 0 <= i < rest.len() && rest[i].name@ == name;
            assert(funds[i + 1].name@ == name);
        }
    }
}

/// The fund with its current amount moved by `delta` cents; everything else
/// unchanged.
pub open spec fn fund_credited(f: Fund, delta: int) -> Fund {
    Fund { current_amount: Amount((f.current() + delta) as i64), ..f }
}

/// The funds after one transaction: the first fund whose name matches is
/// credited (deposit) or debited (withdrawal) by the transaction's amount;
/// when no fund matches, the funds are unchanged.
pub open spec fn apply_txn_funds(funds: Seq<Fund>, t: Transaction) -> Seq<Fund> {
    if has_fund(funds, t.fund@) {
        let i = spec_fund_index(funds, t.fund@);
        funds.update(i, fund_credited(funds[i], txn_delta(t)))
    } else {
        funds
    }
}

/// `true` when applying the transaction overflows neither the balance nor the
/// targeted fund's current amount.
pub open spec fn txn_fits(funds: Seq<Fund>, balance: int, t: Transaction) -> bool {
    &&& fits_cents(balance + txn_delta(t))
    &&& fits_cents(funds[spec_fund_index(funds, t.fund@)].current() + txn_delta(t))
}

/// The funds after a whole transaction list is applied, in list order.
pub open spec fn replay_funds(funds: Seq<Fund>, ts: Seq<Transaction>) -> Seq<Fund>
    decreases ts.len(),
{
    if ts.len() == 0 {
        funds
    } else {
        replay_funds(apply_txn_funds(funds, ts[0]), ts.drop_first())
    }
}

/// The summed signed effect of a transaction list on a balance, in cents.
pub open spec fn sum_txn_deltas(ts: Seq<Transaction>) -> int
    decreases ts.len(),
{
    if ts.len() == 0 {
        0
    } else {
        txn_delta(ts[0]) + sum_txn_deltas(ts.drop_first())
    }
}

/// `true` when replaying the transaction list, step by step, never overflows
/// the balance or a fund's current amount.
pub open spec fn replay_fits(funds: Seq<Fund>, balance: int, ts: Seq<Transaction>) -> bool
    decreases ts.len(),
{
    ts.len() == 0 || {
        &&& txn_fits(funds, balance, ts[0])
        &&& replay_fits(apply_txn_funds(funds, ts[0]), balance + txn_delta(ts[0]), ts.drop_first())
    }
}

/// `true` when every transaction in the list names a fund the sequence holds.
pub open spec fn all_funds_found(funds: Seq<Fund>, ts: Seq<Transaction>) -> bool {
    forall|k: int| 0 <= k < ts.len() ==> has_fund(funds, ts[k].fund@)
}

/// Applying a transaction changes no fund's name (and no fund's position), so
/// every lookup finds the same fund before and after.
pub proof fn lemma_apply_keeps_names(funds: Seq<Fund>, t: Transaction)
    ensures
        apply_txn_funds(funds, t).len() == funds.len(),
        forall|i: int|
            0 <= i < funds.len() ==> #[trigger] apply_txn_funds(funds, t)[i].name@
                == funds[i].name@,
{
    lemma_fund_index(funds, t.fund@);
}

/// Two fund sequences that agree on every name agree on every lookup.
pub proof fn lemma_same_names_same_lookup(f1: Seq<Fund>, f2: Seq<Fund>, name: Seq<char>)
    requires
        f1.len() == f2.len(),
        forall|i: int| 0 <= i < f1.len() ==> f1[i].name@ == f2[i].name@,
    ensures
        has_fund(f1, name) == has_fund(f2, name),
        spec_fund_index(f1, name) == spec_fund_index(f2, name),
    decreases f1.len(),
{
    if has_fund(f1, name) {
        let i = choose|i: int| 0 <= i < f1.len() && f1[i].name@ == name;
        assert(f2[i].name@ == name);
    }
    if has_fund(f2, name) {
        let i = choose|i: int| 0 <= i < f2.len() && f2[i].name@ == name;
        assert(f1[i].name@ == name);
    }
    if f1.len() > 0 && f1[0].name@ != name {
        let r1 = f1.drop_first();
        let r2 = f2.drop_first();
        assert forall|i: int| 0 <= i < r1.len() implies r1[i].name@ == r2[i].name@ by {
            assert(r1[i] == f1[i + 1]);
            assert(r2[i] == f2[i + 1]);
        }
        lemma_same_names_same_lookup(r1, r2, name);
    }
}

/// An account: a name, the amount it was opened with, a running balance, the
/// funds it holds, the transactions already applied to them, and transactions
/// noted for the future (kept, never applied by this module).
pub struct Account {
    pub name: String,
    pub starting_amount: Amount,
    pub balance: Amount,
    pub funds: Vec<Fund>,
    pub transactions: Vec<Transaction>,
    pub future_transactions: Vec<Transaction>,
}

impl Account {
    /// Builds an account and immediately replays the given transactions into
    /// the balance and funds: after construction the balance equals the
    /// summed effect of `transactions` (the starting amount is recorded but
    /// not added to the balance), and every fund reflects the transactions
    /// that target it. When some transaction names a fund that is not given,
    /// `FundNotFound` is returned.
    pub fn new(
        name: String,
        starting_amount: Amount,
        funds: Vec<Fund>,
        transactions: Vec<Transaction>,
        future_transactions: Vec<Transaction>,
    ) -> (r: Result<Account, FundNotFound>)
        requires
            all_funds_found(funds@, transactions@) ==> replay_fits(funds@, 0, transactions@),
        ensures
            r is Ok <==> all_funds_found(funds@, transactions@),
            r is Ok ==> r->Ok_0.name == name,
            r is Ok ==> r->Ok_0.starting_amount == starting_amount,
            r is Ok ==> r->Ok_0.balance.0 == sum_txn_deltas(transactions@),
            r is Ok ==> r->Ok_0.funds@ == replay_funds(funds@, transactions@),
            r is Ok ==> r->Ok_0.transactions == transactions,
            r is Ok ==> r->Ok_0.future_transactions == future_transactions,
    {
        let mut new_account = Account {
            name,
            starting_amount,
            balance: Amount(0),
            funds,
            transactions,
            future_transactions,
        };
        match new_account.setup() {
            Ok(_) => Ok(new_account),
            Err(e) => Err(e),
        }
    }

    /// The index of the first fund whose name matches, or `FundNotFound` when
    /// no fund does.
    pub fn find_fund_index(&self, name: &String) -> (r: Result<usize, FundNotFound>)
        ensures
            r is Ok <==> has_fund(self.funds@, name@),
            r is Ok ==> r->Ok_0 == spec_fund_index(self.funds@, name@),
    {
        let mut counter: usize = 0;
        while counter < self.funds.len()
            invariant
                counter <= self.funds@.len(),
                forall|j: int| 0 <= j < counter ==> self.funds@[j].name@ != name@,
            decreases self.funds@.len() - counter,
        {
            if self.funds[counter].name == *name {
                proof {
                    lemma_fund_index(self.funds@, name@);
                }
                return Ok(counter);
            }
            counter += 1;
        }
        proof {
            lemma_fund_index(self.funds@, name@);
        }
        Err(FundNotFound)
    }

    /// Applies one transaction: a deposit credits, and a withdrawal debits,
    /// both the balance and the first fund whose name matches, by exactly the
    /// transaction's amount in cents (the two per-kind clauses below;
    /// [`lemma_fund_index`] states that `spec_fund_index` is that first
    /// match). When no fund matches, `FundNotFound` is returned and the
    /// account is left unchanged.
    pub fn process_transaction(&mut self, transaction: &Transaction) -> (r: Result<
        (),
        FundNotFound,
    >)
        requires
            has_fund(old(self).funds@, transaction.fund@) ==> txn_fits(
                old(self).funds@,
                old(self).balance.0 as int,
                *transaction,
            ),
        ensures
            r is Ok <==> has_fund(old(self).funds@, transaction.fund@),
            r is Err ==> *final(self) == *old(self),
            final(self).name == old(self).name,
            final(self).starting_amount == old(self).starting_amount,
            final(self).transactions == old(self).transactions,
            final(self).future_transactions == old(self).future_transactions,
            r is Ok ==> final(self).balance.0 == old(self).balance.0 + txn_delta(*transaction),
            r is Ok ==> final(self).funds@ == apply_txn_funds(old(self).funds@, *transaction),
            r is Ok ==> final(self).funds@[spec_fund_index(
                old(self).funds@,
                transaction.fund@,
            )].current() == old(self).funds@[spec_fund_index(
                old(self).funds@,
                transaction.fund@,
            )].current() + txn_delta(*transaction),
            r is Ok && transaction.kind == TransactionKind::Deposit ==> {
                &&& final(self).balance.0 == old(self).balance.0 + transaction.amount
                &&& final(self).funds@[spec_fund_index(
                    old(self).funds@,
                    transaction.fund@,
                )].current() == old(self).funds@[spec_fund_index(
                    old(self).funds@,
                    transaction.fund@,
                )].current() + transaction.amount
            },
            r is Ok && transaction.kind == TransactionKind::Withdrawal ==> {
                &&& final(self).balance.0 == old(self).balance.0 - transaction.amount
                &&& final(self).funds@[spec_fund_index(
                    old(self).funds@,
                    transaction.fund@,
                )].current() == old(self).funds@[spec_fund_index(
                    old(self).funds@,
                    transaction.fund@,
                )].current() - transaction.amount
            },
    {
        let funds_index = match self.find_fund_index(&transaction.fund) {
            Ok(i) => i,
            Err(e) => {
                return Err(e);
            },
        };
        proof {
            lemma_fund_index(self.funds@, transaction.fund@);
        }
        match transaction.kind {
            TransactionKind::Withdrawal => {
                self.balance.withdraw(transaction.amount);
                self.funds[funds_index].current_amount.withdraw(transaction.amount);
            },
            TransactionKind::Deposit => {
                self.balance.deposit(transaction.amount);
                self.funds[funds_index].current_amount.deposit(transaction.amount);
            },
        }
        Ok(())
    }

    /// Applies every transaction in the account's transaction list, in list
    /// order, to the balance and to the matching funds. Not idempotent:
    /// calling it again re-applies the whole list, so a caller invokes it
    /// exactly once per batch. When some transaction names a fund the account
    /// does not hold, `FundNotFound` is returned and nothing is applied.
    pub fn process_transactions(&mut self) -> (r: Result<(), FundNotFound>)
        requires
            all_funds_found(old(self).funds@, old(self).transactions@) ==> replay_fits(
                old(self).funds@,
                old(self).balance.0 as int,
                old(self).transactions@,
            ),
        ensures
            r is Ok <==> all_funds_found(old(self).funds@, old(self).transactions@),
            r is Err ==> *final(self) == *old(self),
            final(self).name == old(self).name,
            final(self).starting_amount == old(self).starting_amount,
            final(self).transactions == old(self).transactions,
            final(self).future_transactions == old(self).future_transactions,
            r is Ok ==> final(self).balance.0 == old(self).balance.0 + sum_txn_deltas(
                old(self).transactions@,
            ),
            r is Ok ==> final(self).funds@ == replay_funds(
                old(self).funds@,
                old(self).transactions@,
            ),
    {
        let ghost ts = self.transactions@;
        let n = self.transactions.len();
        let mut k: usize = 0;
        while k < n
            invariant
                k <= n,
                n == ts.len(),
                *self == *old(self),
                ts == self.transactions@,
                forall|j: int| 0 <= j < k ==> has_fund(self.funds@, ts[j].fund@),
            decreases n - k,
        {
            match self.find_fund_index(&self.transactions[k].fund) {
                Ok(_) => {},
                Err(e) => {
                    return Err(e);
                },
            }
            k += 1;
        }
        assert(all_funds_found(old(self).funds@, ts));
        proof {
            assert(ts.skip(0) =~= ts);
        }
        let mut k: usize = 0;
        while k < n
            invariant
                k <= n,
                n == ts.len(),
                ts == old(self).transactions@,
                self.transactions == old(self).transactions,
                self.name == old(self).name,
                self.starting_amount == old(self).starting_amount,
                self.future_transactions == old(self).future_transactions,
                self.funds@.len() == old(self).funds@.len(),
                forall|i: int|
                    0 <= i < self.funds@.len() ==> #[trigger] self.funds@[i].name@ == old(
                        self,
                    ).funds@[i].name@,
                all_funds_found(old(self).funds@, ts),
                replay_funds(old(self).funds@, ts) == replay_funds(
                    self.funds@,
                    ts.skip(k as int),
                ),
                old(self).balance.0 + sum_txn_deltas(ts) == self.balance.0 + sum_txn_deltas(
                    ts.skip(k as int),
                ),
                replay_fits(self.funds@, self.balance.0 as int, ts.skip(k as int)),
            decreases n - k,
        {
            proof {
                lemma_same_names_same_lookup(self.funds@, old(self).funds@, ts[k as int].fund@);
            }
            let t_amount = self.transactions[k].amount;
            let t_kind = self.transactions[k].kind;
            let funds_index = match self.find_fund_index(&self.transactions[k].fund) {
                Ok(i) => i,
                Err(e) => {
                    proof {
                        assert(false);
                    }
                    return Err(e);
                },
            };
            let ghost funds_before = self.funds@;
            let ghost balance_before = self.balance.0 as int;
            proof {
                lemma_fund_index(funds_before, ts[k as int].fund@);
                assert(ts.skip(k as int)[0] == ts[k as int]);
                assert(ts.skip(k as int).drop_first() =~= ts.skip(k as int + 1));
            }
            match t_kind {
                TransactionKind::Withdrawal => {
                    self.balance.withdraw(t_amount);
                    self.funds[funds_index].current_amount.withdraw(t_amount);
                },
                TransactionKind::Deposit => {
                    self.balance.deposit(t_amount);
                    self.funds[funds_index].current_amount.deposit(t_amount);
                },
            }
            proof {
                assert(self.funds@ == apply_txn_funds(funds_before, ts[k as int]));
                lemma_apply_keeps_names(funds_before, ts[k as int]);
            }
            k += 1;
        }
        proof {
            assert(ts.skip(n as int) =~= Seq::<Transaction>::empty());
        }
        Ok(())
    }

    /// Appends a fund. Existing transactions are not reprocessed against it.
    pub fn add_fund(&mut self, fund: Fund)
        ensures
            final(self).funds@ == old(self).funds@.push(fund),
            final(self).name == old(self).name,
            final(self).starting_amount == old(self).starting_amount,
            final(self).balance == old(self).balance,
            final(self).transactions == old(self).transactions,
            final(self).future_transactions == old(self).future_transactions,
    {
        self.funds.push(fund);
    }

    /// Replays the account's transaction list once; what [`Account::new`]
    /// invokes right after construction.
    pub fn setup(&mut self) -> (r: Result<(), FundNotFound>)
        requires
            all_funds_found(old(self).funds@, old(self).transactions@) ==> replay_fits(
                old(self).funds@,
                old(self).balance.0 as int,
                old(self).transactions@,
            ),
        ensures
            r is Ok <==> all_funds_found(old(self).funds@, old(self).transactions@),
            r is Err ==> *final(self) == *old(self),
            final(self).name == old(self).name,
            final(self).starting_amount == old(self).starting_amount,
            final(self).transactions == old(self).transactions,
            final(self).future_transactions == old(self).future_transactions,
            r is Ok ==> final(self).balance.0 == old(self).balance.0 + sum_txn_deltas(
                old(self).transactions@,
            ),
            r is Ok ==> final(self).funds@ == replay_funds(
                old(self).funds@,
                old(self).transactions@,
            ),
    {
        self.process_transactions()
    }

    /// Applies the same transaction to this account (the sender) and then to
    /// `to_account` (the receiver). Both sides receive the transaction with
    /// its own kind: a deposit credits both accounts and a withdrawal debits
    /// both. When either account lacks the named fund, `FundNotFound` is
    /// returned and neither account is changed.
    pub fn transfer(&mut self, to_transfer: Transaction, to_account: &mut Account) -> (r: Result<
        (),
        FundNotFound,
    >)
        requires
            has_fund(old(self).funds@, to_transfer.fund@) ==> txn_fits(
                old(self).funds@,
                old(self).balance.0 as int,
                to_transfer,
            ),
            has_fund(old(to_account).funds@, to_transfer.fund@) ==> txn_fits(
                old(to_account).funds@,
                old(to_account).balance.0 as int,
                to_transfer,
            ),
        ensures
            r is Ok <==> has_fund(old(self).funds@, to_transfer.fund@) && has_fund(
                old(to_account).funds@,
                to_transfer.fund@,
            ),
            r is Err ==> *final(self) == *old(self) && *final(to_account) == *old(to_account),
            final(self).name == old(self).name,
            final(self).starting_amount == old(self).starting_amount,
            final(self).transactions == old(self).transactions,
            final(self).future_transactions == old(self).future_transactions,
            final(to_account).name == old(to_account).name,
            final(to_account).starting_amount == old(to_account).starting_amount,
            final(to_account).transactions == old(to_account).transactions,
            final(to_account).future_transactions == old(to_account).future_transactions,
            r is Ok ==> final(self).balance.0 == old(self).balance.0 + txn_delta(to_transfer),
            r is Ok ==> final(self).funds@ == apply_txn_funds(old(self).funds@, to_transfer),
            r is Ok ==> final(to_account).balance.0 == old(to_account).balance.0 + txn_delta(
                to_transfer,
            ),
            r is Ok ==> final(to_account).funds@ == apply_txn_funds(
                old(to_account).funds@,
                to_transfer,
            ),
    {
        match to_account.find_fund_index(&to_transfer.fund) {
            Ok(_) => {},
            Err(e) => {
                return Err(e);
            },
        }
        match self.process_transaction(&to_transfer) {
            Ok(_) => {},
            Err(e) => {
                return Err(e);
            },
        }
        match to_account.process_transaction(&to_transfer) {
            Ok(_) => Ok(()),
            Err(e) => {
                proof {
                    assert(false);
                }
                Err(e)
            },
        }
    }

    /// Appends a transaction to the account's transaction list. It is not
    /// applied here: the caller invokes processing explicitly.
    pub fn add_transaction(&mut self, transaction: Transaction)
        ensures
            final(self).transactions@ == old(self).transactions@.push(transaction),
            final(self).name == old(self).name,
            final(self).starting_amount == old(self).starting_amount,
            final(self).balance == old(self).balance,
            final(self).funds == old(self).funds,
            final(self).future_transactions == old(self).future_transactions,
    {
        self.transactions.push(transaction);
    }
}

/// Law: batch processing is additive, not idempotent. The hypotheses are
/// exactly what [`Account::process_transactions`] ensures of two successive
/// successful calls — each call keeps the transaction list and moves the
/// balance by the list's summed effect — and under them the second replay
/// leaves the balance delta at exactly twice the delta of the first.
pub proof fn lemma_process_twice_doubles_delta(start: Account, once: Account, twice: Account)
    requires
        once.transactions == start.transactions,
        once.balance.0 == start.balance.0 + sum_txn_deltas(start.transactions@),
        twice.transactions == once.transactions,
        twice.balance.0 == once.balance.0 + sum_txn_deltas(once.transactions@),
    ensures
        twice.balance.0 - start.balance.0 == 2 * (once.balance.0 - start.balance.0),
{
}

} // verus!
