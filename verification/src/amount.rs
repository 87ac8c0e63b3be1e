//! Monetary amounts, held as a whole number of cents.
//!
//! Keeping money in cents makes every deposit and withdrawal exact integer
//! arithmetic: a sequence of cent-aligned movements can never drift, which is
//! the discipline the ledger relies on.

use vstd::prelude::*;

verus! {

/// `true` when a cent value fits the machine representation of an [`Amount`].
pub open spec fn fits_cents(c: int) -> bool {
    i64::MIN <= c <= i64::MAX
}

/// A monetary amount: the wrapped value is a signed number of cents.
///
/// No lower bound is enforced; an amount (and so a balance) may go negative.
#[derive(Clone, Copy, Debug, PartialEq, Eq, Structural)]
pub struct Amount(pub i64);

impl Amount {
    /// Credits `amount` cents. Exact: the new value is the old value plus
    /// `amount`. A negative `amount` acts as a debit by the same formula.
    pub fn deposit(&mut self, amount: i64)
        requires
            fits_cents(old(self).0 + amount),
        ensures
            final(self).0 == old(self).0 + amount,
    {
        self.0 = self.0 + amount;
    }

    /// Debits `amount` cents. Exact: the new value is the old value minus
    /// `amount`. The result may go negative.
    pub fn withdraw(&mut self, amount: i64)
        requires
            fits_cents(old(self).0 - amount),
        ensures
            final(self).0 == old(self).0 - amount,
    {
        self.0 = self.0 - amount;
    }
}

/// The value an amount holds after a sequence of signed cent movements
/// (a positive entry is a deposit, a negative one a withdrawal).
pub open spec fn apply_deltas(start: int, deltas: Seq<int>) -> int
    decreases deltas.len(),
{
    if deltas.len() == 0 {
        start
    } else {
        apply_deltas(start + deltas[0], deltas.drop_first())
    }
}

/// The plain sum of a sequence of signed cent movements.
pub open spec fn sum_deltas(deltas: Seq<int>) -> int
    decreases deltas.len(),
{
    if deltas.len() == 0 {
        0
    } else {
        deltas[0] + sum_deltas(deltas.drop_first())
    }
}

/// Law: any sequence of deposits and withdrawals leaves an amount at exactly
/// its starting value plus the sum of the signed movements — cent arithmetic
/// never drifts.
pub proof fn lemma_apply_deltas_exact(start: int, deltas: Seq<int>)
    ensures
        apply_deltas(start, deltas) == start + sum_deltas(deltas),
    decreases deltas.len(),
{
    if deltas.len() > 0 {
        lemma_apply_deltas_exact(start + deltas[0], deltas.drop_first());
    }
}

} // verus!
