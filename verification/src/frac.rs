//! The [`Frac`] type: an exact rational number as a numerator over a
//! positive denominator.
//!
//! Produced grid coordinates are exact rationals, since un-rotating an
//! integer lattice point divides by the squared norm of the rotation pair.
//! The fraction is kept unreduced; two fractions are compared and equated
//! by cross-multiplication.

use vstd::prelude::*;

verus! {

/// An exact rational number `num / den` with a positive denominator.
#[derive(Clone, Copy, Debug, PartialEq, Eq, Structural)]
pub struct Frac {
    pub num: i128,
    pub den: i128,
}

impl Frac {
    /// The fraction represents the rational `num / den`.
    pub open spec fn wf(self) -> bool {
        self.den > 0
    }

    /// Two fractions denote the same rational exactly when they
    /// cross-multiply equally.
    pub open spec fn same_value(self, other: Frac) -> bool {
        self.num * other.den == other.num * self.den
    }

    /// Constructs the rational `num / den`.
    pub fn new(num: i128, den: i128) -> (f: Frac)
        requires
            den > 0,
        ensures
            f == (Frac { num, den }),
            f.wf(),
    {
        Frac { num, den }
    }

    /// The fraction denoting the integer `v`.
    pub fn from_int(v: i128) -> (f: Frac)
        ensures
            f.num == v,
            f.den == 1,
            f.wf(),
    {
        Frac { num: v, den: 1 }
    }

    /// Whether the two fractions denote the same rational.
    pub fn eq_value(&self, other: &Frac) -> (r: bool)
        requires
            self.wf(),
            other.wf(),
            i128::MIN <= self.num * other.den <= i128::MAX,
            i128::MIN <= other.num * self.den <= i128::MAX,
        ensures
            r == self.same_value(*other),
    {
        self.num * other.den == other.num * self.den
    }

    /// Whether this fraction is at most the other.
    pub fn le(&self, other: &Frac) -> (r: bool)
        requires
            self.wf(),
            other.wf(),
            i128::MIN <= self.num * other.den <= i128::MAX,
            i128::MIN <= other.num * self.den <= i128::MAX,
        ensures
            r == (self.num * other.den <= other.num * self.den),
    {
        self.num * other.den <= other.num * self.den
    }
}

} // verus!
