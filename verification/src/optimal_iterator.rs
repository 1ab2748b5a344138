//! The scanline core: [`OptimalIterator`] enumerates, row by row, the
//! lattice points of the rotated sampling grid that fall inside the
//! rotated rectangle, and yields them in rotated-space coordinates.
//!
//! # The exact model
//!
//! The rectangle spans `[tl_x, tl_x + w] x [tl_y, tl_y + h]` in the input
//! frame and is rotated about its center `C` by the angle whose sine and
//! cosine are `s / d` and `c / d`.  The sampling lattice lives in the
//! rotated frame: its points are `C + (x0 + i * dx, y0 + k * dy)` for
//! integers `i` and `k`, phase-locked to the center plus the caller's
//! offset, so abutting grids with equal parameters share one seamless
//! lattice.
//!
//! To keep every quantity an integer, rotated-frame positions are scaled
//! by `2 * d`: the lattice point `(i, k)` sits at
//! `X(i) = d * (2 * tl_x + w) + 2 * d * (x0 + i * dx)` and
//! `Y(k) = d * (2 * tl_y + h) + 2 * d * (y0 + k * dy)`.  Mapping a rotated
//! point back into the input frame and comparing against the rectangle
//! clears all denominators into the two conditions of
//! [`RotatedGrid::member`]: with `n = s * s + c * c`,
//! `|u| <= w * n` and `|v| <= h * n`, where `u` and `v` are the rotated
//! dot and cross forms of the lattice offsets.  For a fixed row `k` each
//! condition is a pair of linear inequalities in `i`, so the row's valid
//! span is an exact integer interval obtained by ceiling and floor
//! division: the closed form of intersecting the horizontal scanline with
//! the lines through the rectangle's edges.

use vstd::prelude::*;

use vstd::arithmetic::div_mod::lemma_mod_multiples_basic;

use crate::angle::Angle;
use crate::lattice::bounded_interval;
use crate::lattice::div_ceil;
use crate::line::COORD_LIMIT;
use crate::vector::Vector;

verus! {

/// The largest magnitude accepted for a spacing, offset, corner
/// coordinate, or angle denominator.  Keeping the inputs within this
/// limit keeps every intermediate product of the scan well inside the
/// range of `i128`.
pub const PARAM_LIMIT: i64 = 65536;

/// The largest magnitude a row or column index of the scan can reach:
/// three times [`PARAM_LIMIT`], plus slack for the cursor resting one
/// step past the end.
pub const INDEX_LIMIT: i128 = 196610;

/// The parameters of a rotated sampling grid over a rectangle, with the
/// rotation already folded into the half-turn range of positive cosine.
#[derive(Clone, Copy, Debug, PartialEq, Eq, Structural)]
pub struct RotatedGrid {
    /// The X coordinate of the rectangle's top-left corner.
    pub tl_x: i64,
    /// The Y coordinate of the rectangle's top-left corner.
    pub tl_y: i64,
    /// The width of the rectangle.
    pub w: i64,
    /// The height of the rectangle.
    pub h: i64,
    /// The lattice spacing along the rotated X axis.
    pub dx: i64,
    /// The lattice spacing along the rotated Y axis.
    pub dy: i64,
    /// The lattice phase offset along the rotated X axis.
    pub x0: i64,
    /// The lattice phase offset along the rotated Y axis.
    pub y0: i64,
    /// The sine numerator of the rotation.
    pub s: i64,
    /// The cosine numerator of the rotation; positive after normalization.
    pub c: i64,
    /// The common denominator of the sine and the cosine.
    pub d: i64,
}

impl RotatedGrid {
    /// The parameter ranges every scan works within.
    pub open spec fn wf(self) -> bool {
        &&& 1 <= self.w <= 2 * (PARAM_LIMIT as int)
        &&& 1 <= self.h <= 2 * (PARAM_LIMIT as int)
        &&& 1 <= self.dx <= PARAM_LIMIT as int
        &&& 1 <= self.dy <= PARAM_LIMIT as int
        &&& -(PARAM_LIMIT as int) <= self.x0 <= PARAM_LIMIT as int
        &&& -(PARAM_LIMIT as int) <= self.y0 <= PARAM_LIMIT as int
        &&& -(PARAM_LIMIT as int) <= self.tl_x <= PARAM_LIMIT as int
        &&& -(PARAM_LIMIT as int) <= self.tl_y <= PARAM_LIMIT as int
        &&& 1 <= self.d <= PARAM_LIMIT as int
        &&& -self.d <= self.s <= self.d
        &&& 0 < self.c <= self.d
    }

    /// The squared norm of the rotation pair.
    pub open spec fn n2(self) -> int {
        self.s * self.s + self.c * self.c
    }

    /// The lattice offset along the rotated X axis at column `i`.
    pub open spec fn a_of(self, i: int) -> int {
        self.x0 + i * self.dx
    }

    /// The lattice offset along the rotated Y axis at row `k`.
    pub open spec fn b_of(self, k: int) -> int {
        self.y0 + k * self.dy
    }

    /// The lattice offsets of point `(i, k)` carried back through the
    /// inverse rotation, cleared of denominators: `u` is `2 * d * n2`
    /// times the point's input-frame X offset from the center.
    pub open spec fn u_of(self, i: int, k: int) -> int {
        2 * self.d * (self.c * self.a_of(i) + self.s * self.b_of(k))
    }

    /// The companion of [`RotatedGrid::u_of`] for the Y axis.
    pub open spec fn v_of(self, i: int, k: int) -> int {
        2 * self.d * (self.c * self.b_of(k) - self.s * self.a_of(i))
    }

    /// Whether lattice point `(i, k)` falls inside the rectangle: its
    /// un-rotated offsets from the center stay within half the width and
    /// half the height.
    pub open spec fn member(self, i: int, k: int) -> bool {
        &&& -(self.w * self.n2()) <= self.u_of(i, k) <= self.w * self.n2()
        &&& -(self.h * self.n2()) <= self.v_of(i, k) <= self.h * self.n2()
    }

    /// The absolute value of the sine numerator.
    pub open spec fn s_abs(self) -> int {
        if self.s >= 0 {
            self.s as int
        } else {
            -(self.s as int)
        }
    }

    /// Half the height of the rotated rectangle's bounding box, scaled by
    /// `2 * d`: the smallest axis-aligned box containing the rotated
    /// rectangle extends this far above and below the center.
    pub open spec fn ey(self) -> int {
        self.w * self.s_abs() + self.h * self.c
    }

    /// Whether row `k` crosses the bounding box of the rotated rectangle.
    pub open spec fn row_in_extent(self, k: int) -> bool {
        -self.ey() <= 2 * self.d * self.b_of(k) <= self.ey()
    }

    /// The common denominator of a produced coordinate.
    pub open spec fn coord_den(self) -> int {
        2 * self.n2()
    }

    /// The numerator of the produced X coordinate of lattice point
    /// `(i, k)`, over [`RotatedGrid::coord_den`].
    pub open spec fn coord_x_num(self, i: int, k: int) -> int {
        self.n2() * (2 * self.tl_x + self.w) + self.u_of(i, k)
    }

    /// The numerator of the produced Y coordinate of lattice point
    /// `(i, k)`, over [`RotatedGrid::coord_den`].
    pub open spec fn coord_y_num(self, i: int, k: int) -> int {
        self.n2() * (2 * self.tl_y + self.h) + self.v_of(i, k)
    }
}

/// The product of two values is bounded by the product of their bounds.
proof fn lemma_abs_mul_bound(x: int, y: int, bx: int, by: int)
    by (nonlinear_arith)
    requires
        -bx <= x <= bx,
        -by <= y <= by,
        0 <= bx,
        0 <= by,
    ensures
        -(bx * by) <= x * y <= bx * by,
{
}

/// A bound on a positive multiple cancels down to a bound on the value.
proof fn lemma_pos_cancel(n: int, x: int, e: int)
    by (nonlinear_arith)
    requires
        n > 0,
        -(n * e) <= n * x <= n * e,
    ensures
        -e <= x <= e,
{
}

/// Inverting the rotated offset forms: the lattice offsets `a` and `b`
/// are recovered from `u` and `v` up to the factor `2 * d * n`.
#[verifier::rlimit(100)]
pub(crate) proof fn lemma_uv_inverse(s: int, c: int, d: int, a: int, b: int, u: int, v: int, n: int)
    requires
        u == 2 * d * (c * a + s * b),
        v == 2 * d * (c * b - s * a),
        n == s * s + c * c,
    ensures
        n * (2 * d * b) == s * u + c * v,
        n * (2 * d * a) == c * u - s * v,
{
    assert(s * u == 2 * d * (s * (c * a)) + 2 * d * (s * (s * b))) by (nonlinear_arith)
        requires
            u == 2 * d * (c * a + s * b),
    ;
    assert(c * v == 2 * d * (c * (c * b)) - 2 * d * (c * (s * a))) by (nonlinear_arith)
        requires
            v == 2 * d * (c * b - s * a),
    ;
    assert(s * (c * a) == c * (s * a) && s * (c * b) == c * (s * b)) by (nonlinear_arith);
    assert(s * u + c * v == 2 * d * (s * (s * b)) + 2 * d * (c * (c * b)));
    assert(2 * d * (s * (s * b)) + 2 * d * (c * (c * b)) == (s * s + c * c) * (2 * d * b))
        by (nonlinear_arith);
    assert(c * u == 2 * d * (c * (c * a)) + 2 * d * (c * (s * b))) by (nonlinear_arith)
        requires
            u == 2 * d * (c * a + s * b),
    ;
    assert(s * v == 2 * d * (s * (c * b)) - 2 * d * (s * (s * a))) by (nonlinear_arith)
        requires
            v == 2 * d * (c * b - s * a),
    ;
    assert(c * u - s * v == 2 * d * (c * (c * a)) + 2 * d * (s * (s * a))) by (nonlinear_arith)
        requires
            c * u == 2 * d * (c * (c * a)) + 2 * d * (c * (s * b)),
            s * v == 2 * d * (s * (c * b)) - 2 * d * (s * (s * a)),
    ;
    assert(2 * d * (c * (c * a)) + 2 * d * (s * (s * a)) == (s * s + c * c) * (2 * d * a))
        by (nonlinear_arith);
}

/// A member's row crosses the bounding box, and its lattice offsets are
/// at most half of the width plus the height: the rectangle, whatever its
/// rotation, fits in that window.
pub proof fn lemma_member_in_extent(g: RotatedGrid, i: int, k: int)
    requires
        g.wf(),
        g.member(i, k),
    ensures
        g.row_in_extent(k),
        2 * g.a_of(i) <= g.w + g.h,
        -(g.w + g.h) <= 2 * g.a_of(i),
        2 * g.b_of(k) <= g.w + g.h,
        -(g.w + g.h) <= 2 * g.b_of(k),
{
    let s = g.s as int;
    let c = g.c as int;
    let d = g.d as int;
    let w = g.w as int;
    let h = g.h as int;
    let a = g.a_of(i);
    let b = g.b_of(k);
    let u = g.u_of(i, k);
    let v = g.v_of(i, k);
    let n = g.n2();
    let sa = g.s_abs();
    lemma_uv_inverse(s, c, d, a, b, u, v, n);
    assert(n > 0) by (nonlinear_arith)
        requires
            n == s * s + c * c,
            c > 0,
    ;
    lemma_abs_mul_bound(s, u, sa, w * n);
    lemma_abs_mul_bound(c, v, c, h * n);
    assert(sa * (w * n) + c * (h * n) == n * (w * sa + h * c)) by (nonlinear_arith);
    assert(n * (w * sa + h * c) == n * g.ey());
    lemma_pos_cancel(n, 2 * d * b, g.ey());
    lemma_abs_mul_bound(c, u, d, w * n);
    lemma_abs_mul_bound(s, v, d, h * n);
    assert(d * (w * n) + d * (h * n) == (n * d) * (w + h)) by (nonlinear_arith);
    assert(n * (2 * d * a) == (n * d) * (2 * a)) by (nonlinear_arith);
    assert(n * d > 0) by (nonlinear_arith)
        requires
            n > 0,
            d > 0,
    ;
    lemma_pos_cancel(n * d, 2 * a, w + h);
    assert(g.ey() <= d * (w + h)) by (nonlinear_arith)
        requires
            g.ey() == w * sa + h * c,
            0 <= sa <= d,
            0 < c <= d,
            w >= 1,
            h >= 1,
    ;
    assert(d * (2 * b) == 2 * d * b) by (nonlinear_arith);
    lemma_pos_cancel(d, 2 * b, w + h);
}

/// A member's column and row indices stay within [`INDEX_LIMIT`].
pub proof fn lemma_member_index_bounds(g: RotatedGrid, i: int, k: int)
    requires
        g.wf(),
        g.member(i, k),
    ensures
        -(INDEX_LIMIT as int) < i < INDEX_LIMIT as int,
        -(INDEX_LIMIT as int) < k < INDEX_LIMIT as int,
{
    lemma_member_in_extent(g, i, k);
    assert(-(INDEX_LIMIT as int) < i < INDEX_LIMIT as int) by (nonlinear_arith)
        requires
            -(g.w + g.h) <= 2 * (g.x0 + i * g.dx) <= g.w + g.h,
            1 <= g.dx,
            g.w <= 2 * (PARAM_LIMIT as int),
            g.h <= 2 * (PARAM_LIMIT as int),
            -(PARAM_LIMIT as int) <= g.x0 <= PARAM_LIMIT as int,
            INDEX_LIMIT as int == 3 * (PARAM_LIMIT as int) + 2,
            PARAM_LIMIT as int >= 1,
    ;
    assert(-(INDEX_LIMIT as int) < k < INDEX_LIMIT as int) by (nonlinear_arith)
        requires
            -(g.w + g.h) <= 2 * (g.y0 + k * g.dy) <= g.w + g.h,
            1 <= g.dy,
            g.w <= 2 * (PARAM_LIMIT as int),
            g.h <= 2 * (PARAM_LIMIT as int),
            -(PARAM_LIMIT as int) <= g.y0 <= PARAM_LIMIT as int,
            INDEX_LIMIT as int == 3 * (PARAM_LIMIT as int) + 2,
            PARAM_LIMIT as int >= 1,
    ;
}

/// An iterator for grid coordinates in rotated rectangle space.  Only
/// coordinates that lie within the original axis-aligned rectangle are
/// produced, each exactly once, rows bottom-up from the lowest row index,
/// left to right within a row.
pub struct OptimalIterator {
    /// The grid being scanned.
    pub g: RotatedGrid,
    /// The current row index.
    pub k: i128,
    /// The last row index any member can have.
    pub k_max: i128,
    /// The next column index of the active row.
    pub i: i128,
    /// The last column index of the active row's span.
    pub row_hi: i128,
    /// Whether a row span is active.
    pub active: bool,
}

impl OptimalIterator {
    /// The scan's well-formedness: parameters in range, cursors bounded,
    /// no member beyond the last row, and an active row span that is
    /// exactly the set of the row's members from the cursor on.
    pub open spec fn wf(self) -> bool {
        &&& self.g.wf()
        &&& -(INDEX_LIMIT as int) <= self.k
        &&& -(INDEX_LIMIT as int) <= self.k_max <= INDEX_LIMIT as int
        &&& forall|ii: int, kk: int| self.g.member(ii, kk) ==> kk <= self.k_max
        &&& self.active ==> {
            &&& self.k <= self.k_max
            &&& -(INDEX_LIMIT as int) <= self.i <= self.row_hi + 1
            &&& self.row_hi < INDEX_LIMIT as int
            &&& forall|j: int| self.g.member(j, self.k as int) ==> j <= self.row_hi
            &&& forall|j: int|
                self.i <= j <= self.row_hi ==> self.g.member(j, self.k as int)
        }
    }

    /// Whether the pair `(kk, ii)` is at or after the cursor in scan
    /// order: rows first, then columns.
    pub open spec fn at_or_after(self, kk: int, ii: int) -> bool {
        kk > self.k || (kk == self.k && (!self.active || ii >= self.i))
    }

    /// The set of members the scan has not yet yielded.
    pub open spec fn remaining(self) -> Set<(int, int)> {
        Set::new(|p: (int, int)| self.g.member(p.1, p.0) && self.at_or_after(p.0, p.1))
    }

    /// Whether any member is still to come.
    pub open spec fn has_more(self) -> bool {
        exists|kk: int, ii: int| self.g.member(ii, kk) && self.at_or_after(kk, ii)
    }

    /// The scaled rotated-space X position of column `i`.
    pub open spec fn pos_x(self, i: int) -> int {
        self.g.d * (2 * self.g.tl_x + self.g.w) + 2 * self.g.d * self.g.a_of(i)
    }

    /// The scaled rotated-space Y position of row `k`.
    pub open spec fn pos_y(self, k: int) -> int {
        self.g.d * (2 * self.g.tl_y + self.g.h) + 2 * self.g.d * self.g.b_of(k)
    }
}

/// The rotated offset forms of a row, written as linear functions of the
/// column index: the closed form of intersecting the row's scanline with
/// the lines through the rectangle's edges.
#[verifier::rlimit(100)]
proof fn lemma_column_linear(s: int, c: int, d: int, dx: int, x0: int, a: int, b: int, j: int)
    requires
        a == x0 + j * dx,
    ensures
        2 * d * (c * a + s * b) == (2 * d * c * dx) * j + (2 * d * c * x0 + 2 * d * s * b),
        2 * d * (c * b - s * a) == (2 * d * c * b - 2 * d * s * x0) - (2 * d * s * dx) * j,
{
    assert(c * a == c * x0 + c * (j * dx) && s * a == s * x0 + s * (j * dx))
        by (nonlinear_arith)
        requires
            a == x0 + j * dx,
    ;
    assert(2 * d * (c * a + s * b) == 2 * d * (c * x0) + 2 * d * (c * (j * dx)) + 2 * d * (s
        * b)) by (nonlinear_arith)
        requires
            c * a == c * x0 + c * (j * dx),
    ;
    assert(2 * d * (c * (j * dx)) == (2 * d * c * dx) * j) by (nonlinear_arith);
    assert(2 * d * (c * x0) == 2 * d * c * x0) by (nonlinear_arith);
    assert(2 * d * (s * b) == 2 * d * s * b) by (nonlinear_arith);
    assert(2 * d * (c * b - s * a) == 2 * d * (c * b) - 2 * d * (s * x0) - 2 * d * (s * (j
        * dx))) by (nonlinear_arith)
        requires
            s * a == s * x0 + s * (j * dx),
    ;
    assert(2 * d * (s * (j * dx)) == (2 * d * s * dx) * j) by (nonlinear_arith);
    assert(2 * d * (c * b) == 2 * d * c * b) by (nonlinear_arith);
    assert(2 * d * (s * x0) == 2 * d * s * x0) by (nonlinear_arith);
}

/// The row's vertical offset, written as a linear function of the row
/// index.
proof fn lemma_row_linear(d: int, dy: int, y0: int, b: int, k: int)
    requires
        b == y0 + k * dy,
    ensures
        2 * d * b == (2 * d * dy) * k + 2 * d * y0,
{
    assert(2 * d * (y0 + k * dy) == (2 * d * dy) * k + 2 * d * y0) by (nonlinear_arith);
}

impl OptimalIterator {
    /// The exact span of the row: the interval of column indices whose
    /// lattice points lie inside the rotated rectangle at row `k`.  An
    /// empty intersection comes back with the first bound above the
    /// second.
    fn row_span(&self, k: i128) -> (r: (i128, i128))
        requires
            self.g.wf(),
            -(INDEX_LIMIT as int) <= k <= INDEX_LIMIT as int,
        ensures
            forall|j: int| (r.0 <= j <= r.1) <==> self.g.member(j, k as int),
            r.0 <= r.1 ==> -(INDEX_LIMIT as int) < r.0 && r.1 < INDEX_LIMIT as int,
    {
        let g = &self.g;
        let w = g.w as i128;
        let h = g.h as i128;
        let dx = g.dx as i128;
        let dy = g.dy as i128;
        let x0 = g.x0 as i128;
        let y0 = g.y0 as i128;
        let s = g.s as i128;
        let c = g.c as i128;
        let d = g.d as i128;
        proof {
            lemma_abs_mul_bound(k as int, dy as int, INDEX_LIMIT as int, PARAM_LIMIT as int);
        }
        let b = y0 + k * dy;
        proof {
            lemma_abs_mul_bound(s as int, s as int, PARAM_LIMIT as int, PARAM_LIMIT as int);
            lemma_abs_mul_bound(c as int, c as int, PARAM_LIMIT as int, PARAM_LIMIT as int);
        }
        let n = s * s + c * c;
        proof {
            lemma_abs_mul_bound(w as int, n as int, 0x20000, 0x200000000);
            lemma_abs_mul_bound(h as int, n as int, 0x20000, 0x200000000);
        }
        let wn = w * n;
        let hn = h * n;
        proof {
            lemma_abs_mul_bound(2 * d as int, s as int, 0x20000, 0x10000);
            lemma_abs_mul_bound(2 * d as int, c as int, 0x20000, 0x10000);
            lemma_abs_mul_bound(2 * d * s as int, b as int, 0x200000000, 0x300050000);
            lemma_abs_mul_bound(2 * d * c as int, b as int, 0x200000000, 0x300050000);
            lemma_abs_mul_bound(2 * d * s as int, x0 as int, 0x200000000, 0x10000);
            lemma_abs_mul_bound(2 * d * c as int, x0 as int, 0x200000000, 0x10000);
            lemma_abs_mul_bound(2 * d * s as int, dx as int, 0x200000000, 0x10000);
            lemma_abs_mul_bound(2 * d * c as int, dx as int, 0x200000000, 0x10000);
        }
        let tdsb = 2 * d * s * b;
        let tdcb = 2 * d * c * b;
        let tdsx0 = 2 * d * s * x0;
        let tdcx0 = 2 * d * c * x0;
        let gu = 2 * d * c * dx;
        let gv = 2 * d * s * dx;
        proof {
            assert(gu > 0) by (nonlinear_arith)
                requires
                    gu == 2 * (d as int) * c * dx,
                    d >= 1,
                    c >= 1,
                    dx >= 1,
            ;
        }
        let lo_u = -wn - tdsb - tdcx0;
        let hi_u = wn - tdsb - tdcx0;
        let span_u = bounded_interval(gu, lo_u, hi_u);
        proof {
            assert forall|j: int| #[trigger] g.member(j, k as int) == ((lo_u <= gu * j <= hi_u)
                && (tdcb - tdsx0 - hn <= gv * j <= tdcb - tdsx0 + hn)) by {
                lemma_column_linear(
                    s as int,
                    c as int,
                    d as int,
                    dx as int,
                    x0 as int,
                    g.a_of(j),
                    b as int,
                    j,
                );
            }
        }
        let r = if s != 0 {
            proof {
                assert(gv != 0) by (nonlinear_arith)
                    requires
                        gv == 2 * (d as int) * s * dx,
                        d >= 1,
                        dx >= 1,
                        s != 0,
                ;
            }
            let span_v = bounded_interval(gv, tdcb - tdsx0 - hn, tdcb - tdsx0 + hn);
            let lo = if span_u.0 >= span_v.0 {
                span_u.0
            } else {
                span_v.0
            };
            let hi = if span_u.1 <= span_v.1 {
                span_u.1
            } else {
                span_v.1
            };
            (lo, hi)
        } else {
            proof {
                assert(gv == 0 && tdsx0 == 0) by (nonlinear_arith)
                    requires
                        gv == 2 * (d as int) * s * dx,
                        tdsx0 == 2 * (d as int) * s * x0,
                        s == 0,
                ;
                assert(forall|j: int| #[trigger] (gv * j) == 0) by (nonlinear_arith)
                    requires
                        gv == 0,
                ;
            }
            if -hn <= tdcb && tdcb <= hn {
                span_u
            } else {
                (0, -1)
            }
        };
        proof {
            if r.0 <= r.1 {
                assert(g.member(r.0 as int, k as int));
                assert(g.member(r.1 as int, k as int));
                lemma_member_index_bounds(*g, r.0 as int, k as int);
                lemma_member_index_bounds(*g, r.1 as int, k as int);
            }
        }
        r
    }

    /// Creates a new iterator from the specified axis-aligned (that is,
    /// unrotated) corners.  The angle is folded into the half-turn range
    /// before anything else, so the four quadrant angles all scan the
    /// same, axis-aligned lattice.
    pub fn new(
        tl: Vector,
        tr: Vector,
        bl: Vector,
        br: Vector,
        angle: &Angle,
        dx: i64,
        dy: i64,
        x0: i64,
        y0: i64,
    ) -> (it: OptimalIterator)
        requires
            tl.y == tr.y,
            bl.y == br.y,
            tl.x == bl.x,
            tr.x == br.x,
            -(PARAM_LIMIT as int) <= tl.x < tr.x <= PARAM_LIMIT as int,
            -(PARAM_LIMIT as int) <= tl.y < bl.y <= PARAM_LIMIT as int,
            1 <= dx <= PARAM_LIMIT,
            1 <= dy <= PARAM_LIMIT,
            -PARAM_LIMIT <= x0 <= PARAM_LIMIT,
            -PARAM_LIMIT <= y0 <= PARAM_LIMIT,
            angle.den() <= PARAM_LIMIT as int,
        ensures
            it.wf(),
            !it.active,
            it.g.tl_x == tl.x,
            it.g.tl_y == tl.y,
            it.g.w == tr.x - tl.x,
            it.g.h == bl.y - tl.y,
            it.g.dx == dx,
            it.g.dy == dy,
            it.g.x0 == x0,
            it.g.y0 == y0,
            it.g.s == crate::angle::normalized_sin(angle.sin(), angle.cos()),
            it.g.c == crate::angle::normalized_cos(angle.sin(), angle.cos()),
            it.g.d == angle.den(),
            forall|ii: int, kk: int|
                it.g.member(ii, kk) ==> it.at_or_after(kk, ii),
    {
        let na = angle.normalized();
        let (s64, c64) = na.sin_cos();
        let d64 = na.denominator();
        let g = RotatedGrid {
            tl_x: tl.x as i64,
            tl_y: tl.y as i64,
            w: (tr.x - tl.x) as i64,
            h: (bl.y - tl.y) as i64,
            dx,
            dy,
            x0,
            y0,
            s: s64,
            c: c64,
            d: d64,
        };
        let w = g.w as i128;
        let h = g.h as i128;
        let s = s64 as i128;
        let c = c64 as i128;
        let d = d64 as i128;
        let dyl = dy as i128;
        let y0l = y0 as i128;
        let sa = if s >= 0 {
            s
        } else {
            -s
        };
        proof {
            lemma_abs_mul_bound(w as int, sa as int, 0x20000, 0x10000);
            lemma_abs_mul_bound(h as int, c as int, 0x20000, 0x10000);
            lemma_abs_mul_bound(2 * d as int, dyl as int, 0x20000, 0x10000);
            lemma_abs_mul_bound(2 * d as int, y0l as int, 0x20000, 0x10000);
        }
        let ey = w * sa + h * c;
        let tdd = 2 * d * dyl;
        let tdy0 = 2 * d * y0l;
        proof {
            assert(tdd >= 2) by (nonlinear_arith)
                requires
                    tdd == 2 * (d as int) * dyl,
                    d >= 1,
                    dyl >= 1,
            ;
            assert(-(tdd * (3 * (PARAM_LIMIT as int))) <= -ey - tdy0 && ey - tdy0 <= tdd * (3 * (
            PARAM_LIMIT as int))) by (nonlinear_arith)
                requires
                    ey == w * sa + h * c,
                    tdy0 == 2 * (d as int) * y0l,
                    tdd == 2 * (d as int) * dyl,
                    1 <= w <= 2 * (PARAM_LIMIT as int),
                    1 <= h <= 2 * (PARAM_LIMIT as int),
                    0 <= sa <= d,
                    0 < c <= d,
                    -(PARAM_LIMIT as int) <= y0l <= PARAM_LIMIT as int,
                    1 <= dyl,
                    1 <= d <= PARAM_LIMIT as int,
            ;
            assert(ey >= 0) by (nonlinear_arith)
                requires
                    ey == w * sa + h * c,
                    w >= 1,
                    h >= 1,
                    sa >= 0,
                    c >= 1,
            ;
        }
        let kr = bounded_interval(tdd, -ey - tdy0, ey - tdy0);
        proof {
            crate::lattice::lemma_div_in_window(
                -(-ey - tdy0) as int,
                tdd as int,
                3 * (PARAM_LIMIT as int),
            );
            crate::lattice::lemma_div_in_window(
                (ey - tdy0) as int,
                tdd as int,
                3 * (PARAM_LIMIT as int),
            );
        }
        let it = OptimalIterator { g, k: kr.0, k_max: kr.1, i: 0, row_hi: -1, active: false };
        proof {
            assert forall|ii: int, kk: int| g.member(ii, kk) implies kr.0 <= kk <= kr.1 by {
                lemma_member_in_extent(g, ii, kk);
                lemma_row_linear(d as int, dyl as int, y0l as int, g.b_of(kk), kk);
                assert(-ey - tdy0 <= tdd * kk <= ey - tdy0);
            }
        }
        it
    }

    /// Returns the center of the rectangle, scaled by two to stay an
    /// integer for rectangles of odd extent.
    pub fn center(&self) -> (v: Vector)
        ensures
            v.x == 2 * self.g.tl_x + self.g.w,
            v.y == 2 * self.g.tl_y + self.g.h,
    {
        Vector {
            x: 2 * (self.g.tl_x as i128) + (self.g.w as i128),
            y: 2 * (self.g.tl_y as i128) + (self.g.h as i128),
        }
    }

    /// Produces the next lattice point inside the rotated rectangle, in
    /// scaled rotated-space coordinates, or nothing once the scan is
    /// exhausted.  Points come row by row, left to right within a row;
    /// each call yields the earliest member not yet produced and removes
    /// exactly it from the remaining set.
    pub fn next(&mut self) -> (r: Option<Vector>)
        requires
            old(self).wf(),
        ensures
            final(self).wf(),
            final(self).g == old(self).g,
            r is None ==> !old(self).has_more() && !final(self).has_more(),
            r matches Some(v) ==> ({
                let k0 = final(self).k as int;
                let i0 = final(self).i as int - 1;
                &&& old(self).g.member(i0, k0)
                &&& old(self).at_or_after(k0, i0)
                &&& forall|kk: int, ii: int|
                    old(self).g.member(ii, kk) && old(self).at_or_after(kk, ii) ==> (k0 < kk
                        || (k0 == kk && i0 <= ii))
                &&& v.x == old(self).pos_x(i0)
                &&& v.y == old(self).pos_y(k0)
                &&& final(self).remaining() =~= old(self).remaining().remove((k0, i0))
            }),
    {
        loop
            invariant
                self.g == old(self).g,
                self.wf(),
                forall|ii: int, kk: int| #[trigger]
                    self.g.member(ii, kk) ==> (self.at_or_after(kk, ii) == old(
                        self,
                    ).at_or_after(kk, ii)),
            decreases self.k_max + 1 - self.k, (if self.active {
                0int
            } else {
                1int
            }),
        {
            if self.k > self.k_max {
                proof {
                    assert forall|kk: int, ii: int|
                        !(old(self).g.member(ii, kk) && old(self).at_or_after(kk, ii)) by {
                        if self.g.member(ii, kk) {
                            assert(kk <= self.k_max);
                            assert(!self.at_or_after(kk, ii));
                        }
                    }
                    assert forall|kk: int, ii: int|
                        !(self.g.member(ii, kk) && self.at_or_after(kk, ii)) by {
                        if self.g.member(ii, kk) {
                            assert(kk <= self.k_max);
                        }
                    }
                }
                return None;
            }
            if self.active {
                if self.i <= self.row_hi {
                    let ghost pre = *self;
                    let d = self.g.d as i128;
                    let tlx2 = 2 * (self.g.tl_x as i128) + (self.g.w as i128);
                    let tly2 = 2 * (self.g.tl_y as i128) + (self.g.h as i128);
                    proof {
                        lemma_abs_mul_bound(
                            self.i as int,
                            self.g.dx as int,
                            INDEX_LIMIT as int,
                            PARAM_LIMIT as int,
                        );
                        lemma_abs_mul_bound(
                            self.k as int,
                            self.g.dy as int,
                            INDEX_LIMIT as int,
                            PARAM_LIMIT as int,
                        );
                        lemma_abs_mul_bound(d as int, tlx2 as int, 0x10000, 0x40000);
                        lemma_abs_mul_bound(d as int, tly2 as int, 0x10000, 0x40000);
                        lemma_abs_mul_bound(
                            2 * d as int,
                            (self.g.x0 + self.i * self.g.dx) as int,
                            0x20000,
                            0x300060000,
                        );
                        lemma_abs_mul_bound(
                            2 * d as int,
                            (self.g.y0 + self.k * self.g.dy) as int,
                            0x20000,
                            0x300060000,
                        );
                    }
                    let ax = (self.g.x0 as i128) + self.i * (self.g.dx as i128);
                    let by = (self.g.y0 as i128) + self.k * (self.g.dy as i128);
                    let vx = d * tlx2 + 2 * d * ax;
                    let vy = d * tly2 + 2 * d * by;
                    self.i = self.i + 1;
                    proof {
                        let k0 = self.k as int;
                        let i0 = self.i as int - 1;
                        assert(pre.g.member(i0, k0));
                        assert(pre.at_or_after(k0, i0));
                        assert(*final(self) == *self);
                        assert forall|p: (int, int)|
                            self.remaining().contains(p) == old(self).remaining().remove(
                                (k0, i0),
                            ).contains(p) by {
                            if self.g.member(p.1, p.0) {
                                assert(self.at_or_after(p.0, p.1) == (pre.at_or_after(p.0, p.1)
                                    && p != (k0, i0)));
                            }
                        }
                        assert(self.remaining() =~= old(self).remaining().remove((k0, i0)));
                    }
                    return Some(Vector { x: vx, y: vy });
                } else {
                    let ghost pre = *self;
                    self.active = false;
                    self.k = self.k + 1;
                    proof {
                        assert forall|ii: int, kk: int| #[trigger]
                            self.g.member(ii, kk) implies (self.at_or_after(kk, ii)
                            == pre.at_or_after(kk, ii)) by {
                            if kk == pre.k as int {
                                assert(ii <= pre.row_hi);
                                assert(!pre.at_or_after(kk, ii));
                                assert(!self.at_or_after(kk, ii));
                            }
                        }
                    }
                }
            } else {
                let span = self.row_span(self.k);
                if span.0 <= span.1 {
                    let ghost pre = *self;
                    self.i = span.0;
                    self.row_hi = span.1;
                    self.active = true;
                    proof {
                        assert forall|ii: int, kk: int| #[trigger]
                            self.g.member(ii, kk) implies (self.at_or_after(kk, ii)
                            == pre.at_or_after(kk, ii)) by {
                            if kk == pre.k as int {
                                assert(span.0 <= ii <= span.1);
                            }
                        }
                    }
                } else {
                    let ghost pre = *self;
                    self.k = self.k + 1;
                    proof {
                        assert forall|ii: int, kk: int| #[trigger]
                            self.g.member(ii, kk) implies (self.at_or_after(kk, ii)
                            == pre.at_or_after(kk, ii)) by {
                            if kk == pre.k as int {
                                assert(!(span.0 <= ii <= span.1));
                                assert(!pre.at_or_after(kk, ii));
                            }
                        }
                    }
                }
            }
        }
    }
}

/// An iterator for the lattice X coordinates along one row of a span:
/// the coordinates phase-locked to the anchor, from the first at or
/// after the span's start, stepping by the spacing, up to and including
/// the span's end.
pub struct OptimalXIterator {
    /// The next X coordinate to yield.
    pub x: i128,
    /// The row's Y coordinate, constant over the row.
    pub y: i128,
    /// The lattice spacing along the row.
    pub dx: i128,
    /// The last X coordinate of the row's span; coordinates beyond it
    /// are not yielded.
    pub row_end: i128,
}

impl OptimalXIterator {
    /// The cursor's well-formedness: a positive spacing and coordinates
    /// within range.
    pub open spec fn wf(self) -> bool {
        &&& 1 <= self.dx <= COORD_LIMIT
        &&& -COORD_LIMIT <= self.row_end <= COORD_LIMIT
        &&& -(2 * COORD_LIMIT) <= self.x <= 2 * COORD_LIMIT
    }

    /// Creates the column cursor for one row.  The first X coordinate is
    /// the smallest value at or after the row span's start that is a
    /// whole number of spacings away from the phase anchor, the center
    /// plus the caller's offset; abutting rows therefore sample one
    /// seamless lattice.
    pub fn new(
        y: i128,
        center: Vector,
        row_start: Vector,
        row_end: Vector,
        dx: i128,
        x0: i128,
    ) -> (it: OptimalXIterator)
        requires
            1 <= dx <= COORD_LIMIT,
            -(COORD_LIMIT as int) / 2 <= center.x <= (COORD_LIMIT as int) / 2,
            -(COORD_LIMIT as int) / 2 <= x0 <= (COORD_LIMIT as int) / 2,
            -COORD_LIMIT <= row_start.x <= COORD_LIMIT,
            -COORD_LIMIT <= row_end.x <= COORD_LIMIT,
        ensures
            it.wf(),
            it.y == y,
            it.dx == dx,
            it.row_end == row_end.x,
            row_start.x <= it.x < row_start.x + dx,
            (it.x - (center.x + x0)) % (dx as int) == 0,
    {
        let anchor = center.x + x0;
        let delta = row_start.x - anchor;
        let steps = div_ceil(delta, dx);
        proof {
            assert(-(dx * (2 * (COORD_LIMIT as int))) <= -(delta as int) <= dx * (2 * (
            COORD_LIMIT as int))) by (nonlinear_arith)
                requires
                    dx >= 1,
                    -(2 * (COORD_LIMIT as int)) <= delta <= 2 * (COORD_LIMIT as int),
            ;
            crate::lattice::lemma_div_in_window(
                -delta as int,
                dx as int,
                2 * (COORD_LIMIT as int),
            );
            assert(dx * steps < delta + dx) by (nonlinear_arith)
                requires
                    dx * (steps - 1) < delta,
            ;
        }
        let x = anchor + dx * steps;
        proof {
            assert(steps * dx == dx * steps) by (nonlinear_arith);
            lemma_mod_multiples_basic(steps as int, dx as int);
            assert((x - anchor) % (dx as int) == 0);
        }
        OptimalXIterator { x, y, dx, row_end: row_end.x }
    }

    /// Yields the current X coordinate and steps to the next, or nothing
    /// once the cursor has passed the row span's end; a coordinate
    /// exactly at the span's end is included.
    pub fn next(&mut self) -> (r: Option<i128>)
        requires
            old(self).wf(),
        ensures
            final(self).wf(),
            old(self).x > old(self).row_end ==> r is None && *final(self) == *old(self),
            old(self).x <= old(self).row_end ==> r == Some(old(self).x) && final(self).x == old(
                self,
            ).x + old(self).dx && final(self).y == old(self).y && final(self).dx == old(
                self,
            ).dx && final(self).row_end == old(self).row_end,
    {
        if self.x > self.row_end {
            return None;
        }
        let x = self.x;
        self.x = self.x + self.dx;
        Some(x)
    }
}

} // verus!
