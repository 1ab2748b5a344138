//! The [`Angle`] type: an exact rotation, given by its sine and cosine.
//!
//! Trigonometric functions of an arbitrary radian value are irrational, so
//! an angle is represented by the pair of integers `(sin_num, cos_num)` over
//! a common positive denominator `denom`: the rotation whose sine is
//! `sin_num / denom` and whose cosine is `cos_num / denom`.  The pair
//! `(sin_num, cos_num)` is exactly a unit vector when
//! `sin_num * sin_num + cos_num * cos_num == denom * denom`; the quadrant
//! angles and every Pythagorean angle have such an exact representation,
//! and any other angle is approximated by the caller to the precision of
//! the denominator it chooses.

use vstd::prelude::*;

use vstd::arithmetic::div_mod::lemma_fundamental_div_mod;
use vstd::arithmetic::div_mod::lemma_fundamental_div_mod_converse_mod;

verus! {

/// The sine numerator after folding the angle into the half-turn range of
/// positive cosine: a half turn negates both numerators, and a quarter
/// turn at zero cosine lands on the axis.
pub open spec fn normalized_sin(s: int, c: int) -> int {
    if c > 0 {
        s
    } else if c < 0 {
        -s
    } else {
        0
    }
}

/// The cosine numerator after folding the angle into the half-turn range
/// of positive cosine.
pub open spec fn normalized_cos(s: int, c: int) -> int {
    if c > 0 {
        c
    } else if c < 0 {
        -c
    } else if s >= 0 {
        s
    } else {
        -s
    }
}

/// An exact rotation: the angle whose sine is `sin_num / denom` and whose
/// cosine is `cos_num / denom`.
#[derive(Clone, Copy, Debug, PartialEq, Eq, Structural)]
pub struct Angle {
    sin_num: i64,
    cos_num: i64,
    denom: i64,
}

/// Operations every angle representation offers: reading the sine and
/// cosine, and folding the angle into the canonical half-turn range.
pub trait AngleOps<T>: Sized {
    /// Determines the sine and cosine of the angle.
    fn sin_cos(&self) -> (T, T);

    /// Normalizes the angle into the range of a quarter turn on either
    /// side of zero.
    fn normalize(&self) -> Self;
}

impl Angle {
    /// Every angle holds a positive denominator, sine and cosine numerators
    /// within it, and at least one of the two numerators nonzero.
    #[verifier::type_invariant]
    pub closed spec fn wf(self) -> bool {
        &&& 1 <= self.denom
        &&& -self.denom <= self.sin_num <= self.denom
        &&& -self.denom <= self.cos_num <= self.denom
        &&& !(self.sin_num == 0 && self.cos_num == 0)
    }

    /// The sine numerator.
    pub closed spec fn sin(self) -> int {
        self.sin_num as int
    }

    /// The cosine numerator.
    pub closed spec fn cos(self) -> int {
        self.cos_num as int
    }

    /// The common denominator of the sine and the cosine.
    pub closed spec fn den(self) -> int {
        self.denom as int
    }

    /// The well-formedness the type invariant maintains, stated over the
    /// spec views so that callers can use it.
    pub open spec fn bounds(self) -> bool {
        &&& 1 <= self.den()
        &&& -self.den() <= self.sin() <= self.den()
        &&& -self.den() <= self.cos() <= self.den()
        &&& !(self.sin() == 0 && self.cos() == 0)
    }

    /// Constructs the angle whose sine is `sin_num / denom` and whose
    /// cosine is `cos_num / denom`.
    pub fn new(sin_num: i64, cos_num: i64, denom: i64) -> (a: Angle)
        requires
            1 <= denom,
            -denom <= sin_num <= denom,
            -denom <= cos_num <= denom,
            !(sin_num == 0 && cos_num == 0),
        ensures
            a.sin() == sin_num,
            a.cos() == cos_num,
            a.den() == denom,
    {
        Angle { sin_num, cos_num, denom }
    }

    /// Constructs the value from an angle specified in degrees.  Only the
    /// quadrant angles have exact integer sine and cosine, so the degrees
    /// must be a multiple of a quarter turn; any other angle is built with
    /// [`Angle::new`] from a scaled sine/cosine pair.
    pub fn from_degrees(degrees: i64) -> (a: Angle)
        requires
            degrees % 90 == 0,
        ensures
            a.den() == 1,
            degrees % 360 == 0 ==> a.sin() == 0 && a.cos() == 1,
            degrees % 360 == 90 ==> a.sin() == 1 && a.cos() == 0,
            degrees % 360 == 180 ==> a.sin() == 0 && a.cos() == -1,
            degrees % 360 == 270 ==> a.sin() == -1 && a.cos() == 0,
    {
        let m = degrees % 360;
        let q = if m < 0 {
            m + 360
        } else {
            m
        };
        proof {
            lemma_truncated_mod_360(degrees as int, m as int);
            assert(q == degrees as int % 360);
        }
        if q == 0 {
            Angle { sin_num: 0, cos_num: 1, denom: 1 }
        } else if q == 90 {
            Angle { sin_num: 1, cos_num: 0, denom: 1 }
        } else if q == 180 {
            Angle { sin_num: 0, cos_num: -1, denom: 1 }
        } else {
            proof {
                lemma_quarter_multiples(degrees as int);
            }
            Angle { sin_num: -1, cos_num: 0, denom: 1 }
        }
    }

    /// Determines the sine and cosine of the angle, as numerators over
    /// [`Angle::denominator`].
    pub fn sin_cos(&self) -> (r: (i64, i64))
        ensures
            r.0 == self.sin(),
            r.1 == self.cos(),
            self.bounds(),
    {
        proof {
            use_type_invariant(self);
        }
        (self.sin_num, self.cos_num)
    }

    /// The common denominator of the sine and the cosine.
    pub fn denominator(&self) -> (r: i64)
        ensures
            r == self.den(),
            r >= 1,
            self.bounds(),
    {
        proof {
            use_type_invariant(self);
        }
        self.denom
    }

    /// The opposite rotation: the angle with the sine negated.
    pub fn negated(&self) -> (a: Angle)
        ensures
            a.sin() == -self.sin(),
            a.cos() == self.cos(),
            a.den() == self.den(),
    {
        proof {
            use_type_invariant(self);
        }
        Angle { sin_num: -self.sin_num, cos_num: self.cos_num, denom: self.denom }
    }

    /// Folds the angle into the half-turn range with positive cosine by
    /// whole quarter turns: angles a half turn apart produce the same
    /// lattice, and a quarter turn at zero cosine is folded onto the axis.
    pub fn normalized(&self) -> (a: Angle)
        ensures
            a.den() == self.den(),
            a.sin() == normalized_sin(self.sin(), self.cos()),
            a.cos() == normalized_cos(self.sin(), self.cos()),
            a.cos() > 0,
            -a.den() <= a.sin() <= a.den(),
            a.cos() <= a.den(),
            self.bounds(),
    {
        proof {
            use_type_invariant(self);
        }
        if self.cos_num > 0 {
            Angle { sin_num: self.sin_num, cos_num: self.cos_num, denom: self.denom }
        } else if self.cos_num < 0 {
            Angle { sin_num: -self.sin_num, cos_num: -self.cos_num, denom: self.denom }
        } else if self.sin_num >= 0 {
            Angle { sin_num: 0, cos_num: self.sin_num, denom: self.denom }
        } else {
            Angle { sin_num: 0, cos_num: -self.sin_num, denom: self.denom }
        }
    }
}

impl AngleOps<i64> for Angle {
    /// Determines the sine and cosine of the angle, as numerators over the
    /// common denominator.
    fn sin_cos(&self) -> (i64, i64) {
        Angle::sin_cos(self)
    }

    /// Normalizes the angle into the half-turn range with positive cosine.
    fn normalize(&self) -> Self {
        self.normalized()
    }
}

/// Relates Rust's truncated remainder to the Euclidean one for the modulus
/// of a full turn.
proof fn lemma_truncated_mod_360(degrees: int, m: int)
    requires
        m == (if degrees >= 0 {
            degrees % 360
        } else {
            -((-degrees) % 360)
        }),
    ensures
        degrees % 360 == (if m < 0 {
            m + 360
        } else {
            m
        }),
{
    if degrees < 0 {
        let neg = -degrees;
        lemma_fundamental_div_mod(neg, 360);
        let q = neg / 360;
        let r = neg % 360;
        assert(degrees == (-q) * 360 + (-r)) by (nonlinear_arith)
            requires
                neg == 360 * q + r,
                degrees == -neg,
        ;
        if r == 0 {
            lemma_fundamental_div_mod_converse_mod(degrees, 360, -q, 0);
        } else {
            assert(degrees == (-q - 1) * 360 + (360 - r)) by (nonlinear_arith)
                requires
                    degrees == (-q) * 360 + (-r),
            ;
            lemma_fundamental_div_mod_converse_mod(degrees, 360, -q - 1, 360 - r);
        }
    }
}

/// A multiple of a quarter turn is one of the four quadrant angles within a
/// full turn.
proof fn lemma_quarter_multiples(degrees: int)
    requires
        degrees % 90 == 0,
    ensures
        degrees % 360 == 0 || degrees % 360 == 90 || degrees % 360 == 180 || degrees % 360
            == 270,
{
    lemma_fundamental_div_mod(degrees, 360);
    let q = degrees / 360;
    let r = degrees % 360;
    assert(r % 90 == 0) by {
        assert(degrees == 360 * q + r);
        assert(r == degrees - 4 * 90 * q);
        lemma_fundamental_div_mod(degrees, 90);
        let q9 = degrees / 90;
        assert(degrees == 90 * q9);
        assert(r == (q9 - 4 * q) * 90 + 0) by (nonlinear_arith)
            requires
                degrees == 90 * q9,
                r == degrees - 4 * 90 * q,
        ;
        lemma_fundamental_div_mod_converse_mod(r, 90, q9 - 4 * q, 0);
    }
    lemma_fundamental_div_mod(r, 90);
    let k = r / 90;
    assert(r == 90 * k);
    assert(0 <= k < 4) by (nonlinear_arith)
        requires
            r == 90 * k,
            0 <= r < 360,
    ;
}

} // verus!
