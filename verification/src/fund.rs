//! Funds: named buckets of money within an account, each with a kind and a
//! pair of bound values that give the fund a goal to measure progress against.

use crate::amount::Amount;
use crate::amount::fits_cents;
use vstd::arithmetic::div_mod::lemma_div_nonincreasing;
use vstd::math::abs;
use vstd::prelude::*;

verus! {

/// What a fund's bounds mean:
/// - `Budget`: starts fully funded and is spent down toward zero.
/// - `Savings`: starts at a base sum and grows toward a goal.
/// - `Income`: starts empty and grows toward an expected total.
#[derive(Clone, Copy, Debug, PartialEq, Eq, Structural)]
pub enum FundKind {
    Budget,
    Savings,
    Income,
}

/// A named bucket of money. `current_amount` is the money the fund holds now;
/// `start_and_end_amounts` are the begin and end bounds (in cents) that the
/// progress indicator is measured against. The name is expected to be unique
/// within an account: a transaction is applied to the first fund whose name
/// matches.
pub struct Fund {
    pub name: String,
    pub kind: FundKind,
    pub current_amount: Amount,
    pub start_and_end_amounts: (i64, i64),
}

/// Integer division truncated toward zero, the rounding the progress
/// indicator uses: the magnitudes are divided and the sign of the exact
/// quotient is restored.
pub open spec fn trunc_div(a: int, b: int) -> int {
    if (a >= 0) == (b >= 0) {
        abs(a) as int / abs(b) as int
    } else {
        -(abs(a) as int / abs(b) as int)
    }
}

/// Integer division truncated toward zero.
fn div_trunc(a: i128, b: i128) -> (r: i128)
    requires
        b != 0,
        -0x10_0000_0000_0000_0000_0000 <= a <= 0x10_0000_0000_0000_0000_0000,
        -0x10_0000_0000_0000_0000_0000 <= b <= 0x10_0000_0000_0000_0000_0000,
    ensures
        r == trunc_div(a as int, b as int),
{
    let na: u128 = if a >= 0 {
        a as u128
    } else {
        (-a) as u128
    };
    let nb: u128 = if b >= 0 {
        b as u128
    } else {
        (-b) as u128
    };
    let q: u128 = na / nb;
    proof {
        lemma_div_nonincreasing(na as int, nb as int);
    }
    if (a >= 0) == (b >= 0) {
        q as i128
    } else {
        -(q as i128)
    }
}

impl Fund {
    /// The begin bound, in cents.
    pub open spec fn begin(self) -> int {
        self.start_and_end_amounts.0 as int
    }

    /// The end bound, in cents.
    pub open spec fn end(self) -> int {
        self.start_and_end_amounts.1 as int
    }

    /// The money the fund holds now, in cents.
    pub open spec fn current(self) -> int {
        self.current_amount.0 as int
    }

    fn new(name: String, kind: FundKind, starting_amount: i64, ending_amount: i64) -> (f: Fund)
        ensures
            f.name@ == name@,
            f.kind == kind,
            f.current() == starting_amount as int,
            f.begin() == starting_amount as int,
            f.end() == ending_amount as int,
    {
        Fund {
            name,
            kind,
            current_amount: Amount(starting_amount),
            start_and_end_amounts: (starting_amount, ending_amount),
        }
    }

    /// A budget fund: starts fully funded with `starting_amount` cents and is
    /// spent down toward an end bound of zero.
    pub fn budget(name: String, starting_amount: i64) -> (f: Fund)
        ensures
            f.name@ == name@,
            f.kind == FundKind::Budget,
            f.current() == starting_amount as int,
            f.begin() == starting_amount as int,
            f.end() == 0,
    {
        Fund::new(name, FundKind::Budget, starting_amount, 0)
    }

    /// A savings fund: starts at `starting_amount` cents and grows toward a
    /// goal of `starting_amount + amount_to_add` cents.
    pub fn savings(name: String, starting_amount: i64, amount_to_add: i64) -> (f: Fund)
        requires
            fits_cents(starting_amount + amount_to_add),
        ensures
            f.name@ == name@,
            f.kind == FundKind::Savings,
            f.current() == starting_amount as int,
            f.begin() == starting_amount as int,
            f.end() == starting_amount + amount_to_add,
    {
        Fund::new(name, FundKind::Savings, starting_amount, starting_amount + amount_to_add)
    }

    /// An income fund: starts empty and grows toward an expected total of
    /// `goal` cents.
    pub fn income(name: String, goal: i64) -> (f: Fund)
        ensures
            f.name@ == name@,
            f.kind == FundKind::Income,
            f.current() == 0,
            f.begin() == 0,
            f.end() == goal as int,
    {
        Fund::new(name, FundKind::Income, 0, goal)
    }

    /// `true` when the progress indicator's denominator is nonzero, so the
    /// indicator is defined for this fund.
    pub open spec fn progress_defined(self) -> bool {
        match self.kind {
            FundKind::Budget => self.begin() != 0,
            FundKind::Savings => self.end() != self.begin(),
            FundKind::Income => self.end() != 0,
        }
    }

    /// The progress indicator, a 0-to-20 scale (not clamped: it can fall
    /// outside that range when the current amount exceeds the bounds):
    /// - Budget: `20 × (begin − current) / begin`, the fraction of the budget
    ///   spent.
    /// - Savings: `20 − 20 × (end − current) / (end − begin)`, the fraction of
    ///   the savings gap closed, written here in the exactly equal single-
    ///   quotient form `20 × (current − begin) / (end − begin)`.
    /// - Income: `20 × current / end`, the fraction of the income goal
    ///   received.
    /// The exact quotient is truncated toward zero.
    pub open spec fn spec_progress(self) -> int {
        match self.kind {
            FundKind::Budget => trunc_div(20 * (self.begin() - self.current()), self.begin()),
            FundKind::Savings => trunc_div(
                20 * (self.current() - self.begin()),
                self.end() - self.begin(),
            ),
            FundKind::Income => trunc_div(20 * self.current(), self.end()),
        }
    }

    /// Computes the progress indicator described by [`Fund::spec_progress`].
    /// Pure: the fund is not changed.
    pub fn progress(&self) -> (r: i128)
        requires
            self.progress_defined(),
        ensures
            r == self.spec_progress(),
    {
        let begin: i128 = self.start_and_end_amounts.0 as i128;
        let end: i128 = self.start_and_end_amounts.1 as i128;
        let current: i128 = self.current_amount.0 as i128;
        match self.kind {
            FundKind::Budget => div_trunc(20 * (begin - current), begin),
            FundKind::Savings => div_trunc(20 * (current - begin), end - begin),
            FundKind::Income => div_trunc(20 * current, end),
        }
    }
}

} // verus!
