//! Integer utilities for phase-locked lattices: floor and ceiling
//! division, and the exact index interval satisfying a pair of linear
//! inequalities.
//!
//! The lattice coordinates along one axis are `anchor + i * step` for
//! integer `i`; finding the first and last coordinate inside a bound is a
//! ceiling or floor division.  The same computation serves the rows and
//! the columns, so it lives here once.

use vstd::prelude::*;

use vstd::arithmetic::div_mod::lemma_fundamental_div_mod;
use vstd::arithmetic::div_mod::lemma_fundamental_div_mod_converse_div;

verus! {

/// The quotient of `a` by `b`, rounded toward negative infinity.  For a
/// positive divisor this is exactly the Euclidean quotient that `/` means
/// in specifications.
pub(crate) fn div_floor(a: i128, b: i128) -> (q: i128)
    requires
        b > 0,
        a > i128::MIN,
    ensures
        q == a / b,
        b * q <= a < b * (q + 1),
{
    let q0 = a / b;
    let r0 = a % b;
    proof {
        lemma_fundamental_div_mod(-a as int, b as int);
        if a >= 0 {
            assert(q0 == a / b);
        } else {
            let n = -a as int;
            let qn = n / (b as int);
            let rn = n % (b as int);
            assert(q0 == -qn && r0 == -rn);
            if rn == 0 {
                assert(a == (-qn) * b + 0) by (nonlinear_arith)
                    requires
                        n == b * qn + rn,
                        rn == 0,
                        a == -n,
                ;
                lemma_fundamental_div_mod_converse_div(a as int, b as int, -qn, 0);
            } else {
                assert(a == (-qn - 1) * b + (b - rn)) by (nonlinear_arith)
                    requires
                        n == b * qn + rn,
                        a == -n,
                ;
                lemma_fundamental_div_mod_converse_div(a as int, b as int, -qn - 1, b - rn);
            }
        }
    }
    let q = if r0 != 0 && a < 0 {
        q0 - 1
    } else {
        q0
    };
    proof {
        lemma_fundamental_div_mod(a as int, b as int);
        assert(b * q <= a < b * (q + 1)) by (nonlinear_arith)
            requires
                q == a / b,
                a == b * (a / b) + a % b,
                0 <= a % b < b,
        ;
    }
    q
}

/// The quotient of `a` by `b`, rounded toward positive infinity.
pub(crate) fn div_ceil(a: i128, b: i128) -> (q: i128)
    requires
        b > 0,
        a > i128::MIN,
    ensures
        q == -((-(a as int)) / (b as int)),
        b * (q - 1) < a <= b * q,
{
    let q1 = div_floor(-a, b);
    proof {
        assert(q1 > i128::MIN) by (nonlinear_arith)
            requires
                b >= 1,
                b * q1 <= -(a as int),
                -(a as int) < b * (q1 + 1),
                -(a as int) <= i128::MAX,
                i128::MIN < -(i128::MAX as int),
        ;
        assert(b * (-(q1 as int) - 1) < a <= b * (-(q1 as int))) by (nonlinear_arith)
            requires
                b * q1 <= -(a as int),
                -(a as int) < b * (q1 + 1),
        ;
    }
    -q1
}

/// For a positive divisor, the Euclidean quotient is the floor: the
/// dividend lies between the quotient's multiple and the next one.
pub(crate) proof fn lemma_floor_div_char(a: int, b: int)
    requires
        b > 0,
    ensures
        b * (a / b) <= a < b * (a / b + 1),
{
    lemma_fundamental_div_mod(a, b);
    assert(b * (a / b) <= a < b * (a / b + 1)) by (nonlinear_arith)
        requires
            a == b * (a / b) + a % b,
            0 <= a % b < b,
    ;
}

/// For a positive divisor, the negated quotient of the negated dividend
/// is the ceiling: the dividend lies between that quotient's multiple and
/// the previous one.
pub(crate) proof fn lemma_ceil_div_char(a: int, b: int)
    requires
        b > 0,
    ensures
        b * (-((-a) / b) - 1) < a <= b * (-((-a) / b)),
{
    lemma_fundamental_div_mod(-a, b);
    let q = (-a) / b;
    assert(b * (-q - 1) < a <= b * (-q)) by (nonlinear_arith)
        requires
            -a == b * q + (-a) % b,
            0 <= (-a) % b < b,
    ;
}

/// For a positive factor, the multiples of `b` that stay at or below `a`
/// are exactly the multiples by an index at or below the floor quotient.
pub(crate) proof fn lemma_floor_characterizes(a: int, b: int, q: int, i: int)
    by (nonlinear_arith)
    requires
        b > 0,
        b * q <= a < b * (q + 1),
    ensures
        (b * i <= a) <==> (i <= q),
{
}

/// For a positive factor, the multiples of `b` that stay at or above `a`
/// are exactly the multiples by an index at or above the ceiling quotient.
pub(crate) proof fn lemma_ceil_characterizes(a: int, b: int, q: int, i: int)
    by (nonlinear_arith)
    requires
        b > 0,
        b * (q - 1) < a <= b * q,
    ensures
        (b * i >= a) <==> (i >= q),
{
}

/// A quotient whose numerator lies within `t` multiples of the divisor
/// lies within `t` of zero.
pub(crate) proof fn lemma_div_in_window(a: int, b: int, t: int)
    requires
        b >= 1,
        t >= 0,
        -(b * t) <= a <= b * t,
    ensures
        -t <= a / b <= t,
{
    lemma_fundamental_div_mod(a, b);
    let q = a / b;
    let r = a % b;
    assert(-t <= q <= t) by (nonlinear_arith)
        requires
            a == b * q + r,
            0 <= r < b,
            -(b * t) <= a <= b * t,
            b >= 1,
            t >= 0,
    ;
}

/// The exact set of integers `i` with `lo <= g * i <= hi`, as an interval
/// of indices: `i` satisfies the inequalities exactly when
/// `r.0 <= i <= r.1`.  The interval is empty (first bound above second)
/// when no integer satisfies them.
pub(crate) fn bounded_interval(g: i128, lo: i128, hi: i128) -> (r: (i128, i128))
    requires
        g != 0,
        g > i128::MIN,
        lo > i128::MIN,
        hi > i128::MIN,
    ensures
        forall|i: int| (r.0 <= i <= r.1) <==> (lo <= #[trigger] (g * i) <= hi),
        g > 0 ==> r.0 == -((-(lo as int)) / (g as int)) && r.1 == (hi as int) / (g as int),
        g < 0 ==> r.0 == -((hi as int) / (-(g as int))) && r.1 == (-(lo as int)) / (-(
        g as int)),
{
    if g > 0 {
        let first = div_ceil(lo, g);
        let last = div_floor(hi, g);
        proof {
            assert forall|i: int| (first <= i <= last) <==> (lo <= #[trigger] (g * i) <= hi) by {
                lemma_ceil_characterizes(lo as int, g as int, first as int, i);
                lemma_floor_characterizes(hi as int, g as int, last as int, i);
            }
        }
        (first, last)
    } else {
        let gp = -g;
        let first = div_ceil(-hi, gp);
        let last = div_floor(-lo, gp);
        proof {
            assert forall|i: int| (first <= i <= last) <==> (lo <= #[trigger] (g * i) <= hi) by {
                lemma_ceil_characterizes(-hi as int, gp as int, first as int, i);
                lemma_floor_characterizes(-lo as int, gp as int, last as int, i);
                assert((gp * i >= -(hi as int)) == (g * i <= hi) && (gp * i <= -(lo as int)) == (
                g * i >= lo)) by (nonlinear_arith)
                    requires
                        gp == -(g as int),
                ;
            }
        }
        (first, last)
    }
}

} // verus!
