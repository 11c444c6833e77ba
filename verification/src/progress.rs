//! The share of a job that is done, kept as an exact fraction.

use vstd::prelude::*;

verus! {

/// A fraction of natural numbers: the mathematical value of a [`Progress`].
pub struct Fraction {
    pub numerator: nat,
    pub denominator: nat,
}

impl Fraction {
    /// Nothing done.
    pub open spec fn zero() -> Fraction {
        Fraction { numerator: 0, denominator: 1 }
    }

    /// Half done.
    pub open spec fn half() -> Fraction {
        Fraction { numerator: 1, denominator: 2 }
    }

    /// All done.
    pub open spec fn one() -> Fraction {
        Fraction { numerator: 1, denominator: 1 }
    }

    /// The fraction denotes a number: it does not divide by zero.
    pub open spec fn defined(self) -> bool {
        self.denominator > 0
    }

    /// The fraction denotes a number between zero and one.
    pub open spec fn within_unit(self) -> bool {
        self.defined() && self.numerator <= self.denominator
    }

    /// The fraction denotes the number one.
    pub open spec fn is_one(self) -> bool {
        self.defined() && self.numerator == self.denominator
    }
}

/// The share of a job that is done: `numerator / denominator`.
///
/// The fields are wide enough to hold the sum of two track counters.
#[derive(Debug, Clone, Copy, PartialEq, Eq)]
pub struct Progress {
    pub numerator: u128,
    pub denominator: u128,
}

impl View for Progress {
    type V = Fraction;

    open spec fn view(&self) -> Fraction {
        Fraction { numerator: self.numerator as nat, denominator: self.denominator as nat }
    }
}

impl DeepView for Progress {
    type V = Fraction;

    open spec fn deep_view(&self) -> Fraction {
        self@
    }
}

impl Progress {
    /// Nothing done yet.
    pub fn zero() -> (r: Progress)
        ensures
            r@ == Fraction::zero(),
    {
        Progress { numerator: 0, denominator: 1 }
    }

    /// Half done: the coarse value of a transfer that is under way.
    pub fn half() -> (r: Progress)
        ensures
            r@ == Fraction::half(),
    {
        Progress { numerator: 1, denominator: 2 }
    }

    /// All done.
    pub fn complete() -> (r: Progress)
        ensures
            r@ == Fraction::one(),
    {
        Progress { numerator: 1, denominator: 1 }
    }

    /// The share of a playlist that is settled: tracks that came in or were
    /// given up, out of all its tracks.
    pub fn of_tally(completed: usize, failed: usize, total: usize) -> (r: Progress)
        requires
            total > 0,
        ensures
            r@ == (Fraction { numerator: (completed + failed) as nat, denominator: total as nat }),
    {
        let done: u128 = completed as u128 + failed as u128;
        Progress { numerator: done, denominator: total as u128 }
    }

    /// Whether the fraction is a number between zero and one.
    pub fn is_within_unit(&self) -> (r: bool)
        ensures
            r == self@.within_unit(),
    {
        self.denominator > 0 && self.numerator <= self.denominator
    }

    /// Whether the fraction is the number one.
    pub fn is_complete(&self) -> (r: bool)
        ensures
            r == self@.is_one(),
    {
        self.denominator > 0 && self.numerator == self.denominator
    }
}

} // verus!
