//! Grid positions along a rotated sampling lattice, in exact arithmetic.
//!
//! The classic halftone-screen placement problem: an axis-aligned rectangle
//! carries a sampling lattice (spacing `dx` by `dy`, phase-anchored to the
//! rectangle's center plus a caller-supplied offset) that is rotated by an
//! angle about the rectangle's center.  The library enumerates exactly the
//! lattice points that fall inside the rectangle, row by row, without
//! scanning the points of the bounding box that are guaranteed to miss.
//!
//! All arithmetic is exact.  Coordinates are integers, a rotation is given
//! as a sine/cosine pair over a common denominator (`Angle`), and produced
//! points are exact rationals (`Frac`).  This keeps every geometric
//! statement provable: containment, the row-span characterization, and the
//! round-trip of rotating and un-rotating are theorems here, not
//! tolerances.

mod angle;
mod frac;
mod grid_coord;
mod lattice;
pub mod laws;
mod line;
mod line_segment;
mod optimal_iterator;
mod vector;

pub use angle::Angle;
pub use angle::AngleOps;
pub use frac::Frac;
pub use grid_coord::GridCoord;
pub use line::Line;
pub use line_segment::LineSegment;
pub use optimal_iterator::OptimalIterator;
pub use optimal_iterator::OptimalXIterator;
pub use optimal_iterator::RotatedGrid;
pub use vector::Vector;

use vstd::prelude::*;

use crate::lattice::div_floor;
use crate::optimal_iterator::PARAM_LIMIT;
use crate::optimal_iterator::lemma_member_in_extent;

verus! {

/// The product of two values is bounded by the product of their bounds.
proof fn lemma_product_bound(x: int, y: int, bx: int, by: int)
    by (nonlinear_arith)
    requires
        -bx <= x <= bx,
        -by <= y <= by,
        0 <= bx,
        0 <= by,
    ensures
        -(bx * by) <= x * y <= bx * by,
{
}

/// Rebuilding the rotated offset forms from the scaled rotated-space
/// position: multiplying the scaled offsets by the rotation pair gives
/// exactly the `u` and `v` forms of the lattice point.
#[verifier::rlimit(100)]
proof fn lemma_unrotate_forms(s: int, c: int, d: int, a: int, b: int, xs: int, ys: int)
    requires
        xs == 2 * d * a,
        ys == 2 * d * b,
    ensures
        c * xs + s * ys == 2 * d * (c * a + s * b),
        c * ys - s * xs == 2 * d * (c * b - s * a),
{
    assert(c * (2 * d * a) == 2 * d * (c * a) && s * (2 * d * b) == 2 * d * (s * b) && c * (2
        * d * b) == 2 * d * (c * b) && s * (2 * d * a) == 2 * d * (s * a))
        by (nonlinear_arith);
    assert(2 * d * (c * a) + 2 * d * (s * b) == 2 * d * (c * a + s * b)) by (nonlinear_arith);
    assert(2 * d * (c * b) - 2 * d * (s * a) == 2 * d * (c * b - s * a)) by (nonlinear_arith);
}

/// An iterator for positions on a rotated grid over the rectangle
/// `[0, width] x [0, height]`.  Construction rotates the sampling lattice
/// about the rectangle's center; every produced [`GridCoord`] is given in
/// the caller's original coordinate frame, as exact rationals over the
/// common denominator [`RotatedGrid::coord_den`].
pub struct GridPositionIterator {
    /// The scanline core working in rotated space.
    pub inner: OptimalIterator,
}

impl GridPositionIterator {
    /// The iterator's well-formedness.
    pub open spec fn wf(self) -> bool {
        self.inner.wf()
    }

    /// The grid parameters being scanned.
    pub open spec fn grid(self) -> RotatedGrid {
        self.inner.g
    }

    /// Whether any grid position is still to come.
    pub open spec fn has_more(self) -> bool {
        self.inner.has_more()
    }

    /// The set of lattice members the iterator has not yet yielded.
    pub open spec fn remaining(self) -> Set<(int, int)> {
        self.inner.remaining()
    }

    /// The upper bound the iterator advertises for the number of grid
    /// points: the unrotated count of columns times rows, with one spare
    /// step on each axis.
    pub open spec fn spec_estimate(g: RotatedGrid) -> int {
        ((g.w - 1) / (g.dx as int) + 2) * ((g.h - 1) / (g.dy as int) + 2)
    }

    /// Creates a new iterator.
    ///
    /// ## Arguments
    /// * `width` - The width of the grid. Must be positive.
    /// * `height` - The height of the grid. Must be positive.
    /// * `dx` - The spacing of grid elements along the (rotated) X axis.
    /// * `dy` - The spacing of grid elements along the (rotated) Y axis.
    /// * `x0` - The X offset of the first grid element.
    /// * `y0` - The Y offset of the first grid element.
    /// * `alpha` - The orientation of the grid.
    pub fn new(
        width: i64,
        height: i64,
        dx: i64,
        dy: i64,
        x0: i64,
        y0: i64,
        alpha: &Angle,
    ) -> (it: GridPositionIterator)
        requires
            0 < width <= PARAM_LIMIT,
            0 < height <= PARAM_LIMIT,
            1 <= dx <= PARAM_LIMIT,
            1 <= dy <= PARAM_LIMIT,
            -PARAM_LIMIT <= x0 <= PARAM_LIMIT,
            -PARAM_LIMIT <= y0 <= PARAM_LIMIT,
            alpha.den() <= PARAM_LIMIT as int,
        ensures
            it.wf(),
            it.grid().tl_x == 0,
            it.grid().tl_y == 0,
            it.grid().w == width,
            it.grid().h == height,
            it.grid().dx == dx,
            it.grid().dy == dy,
            it.grid().x0 == x0,
            it.grid().y0 == y0,
            it.grid().s == crate::angle::normalized_sin(alpha.sin(), alpha.cos()),
            it.grid().c == crate::angle::normalized_cos(alpha.sin(), alpha.cos()),
            it.grid().d == alpha.den(),
            forall|ii: int, kk: int|
                it.grid().member(ii, kk) ==> it.inner.at_or_after(kk, ii),
    {
        let tl = Vector::new(0, 0);
        let tr = Vector::new(width as i128, 0);
        let bl = Vector::new(0, height as i128);
        let br = Vector::new(width as i128, height as i128);
        let inner = OptimalIterator::new(tl, tr, bl, br, alpha, dx, dy, x0, y0);
        GridPositionIterator { inner }
    }

    /// Provides an upper bound for the number of grid points: the exact
    /// count of an unrotated grid's columns and rows, each padded by one
    /// spare lattice step.  Rotated grids produce fewer points than an
    /// unrotated grid of the bounding extent, never more than this bound
    /// for axis-aligned scans; see the counting law for what is proved.
    pub fn estimate_max_grid_points(&self) -> (r: u64)
        requires
            self.wf(),
        ensures
            r == Self::spec_estimate(self.grid()),
    {
        let g = &self.inner.g;
        let ex = div_floor((g.w as i128) - 1, g.dx as i128) + 2;
        let ey = div_floor((g.h as i128) - 1, g.dy as i128) + 2;
        proof {
            assert(1 <= ex <= 2 * (PARAM_LIMIT as int) + 2) by (nonlinear_arith)
                requires
                    (g.dx as int) * (ex - 2) <= g.w - 1 < (g.dx as int) * (ex - 1),
                    1 <= g.dx,
                    1 <= g.w <= 2 * (PARAM_LIMIT as int),
            ;
            assert(1 <= ey <= 2 * (PARAM_LIMIT as int) + 2) by (nonlinear_arith)
                requires
                    (g.dy as int) * (ey - 2) <= g.h - 1 < (g.dy as int) * (ey - 1),
                    1 <= g.dy,
                    1 <= g.h <= 2 * (PARAM_LIMIT as int),
            ;
            lemma_product_bound(ex as int, ey as int, 0x20002, 0x20002);
        }
        (ex * ey) as u64
    }

    /// The size hint of the iteration: no lower bound, and the estimated
    /// upper bound of [`GridPositionIterator::estimate_max_grid_points`].
    pub fn size_hint(&self) -> (r: (u64, Option<u64>))
        requires
            self.wf(),
        ensures
            r.0 == 0,
            r.1 == Some(Self::spec_estimate(self.grid()) as u64),
    {
        (0, Some(self.estimate_max_grid_points()))
    }

    /// Runs the scan to exhaustion and collects every remaining grid
    /// position, in scan order.  The scan is finite: the collected count
    /// is exactly the number of remaining lattice members, and for an
    /// axis-aligned scan it never exceeds the advertised estimate.
    pub fn collect_positions(&mut self) -> (r: Vec<GridCoord>)
        requires
            old(self).wf(),
        ensures
            final(self).wf(),
            final(self).grid() == old(self).grid(),
            !final(self).has_more(),
            old(self).remaining().finite(),
            r@.len() == old(self).remaining().len(),
            old(self).grid().s == 0 ==> r@.len() <= Self::spec_estimate(old(self).grid()),
    {
        proof {
            crate::laws::lemma_member_set_finite(self.grid());
            assert forall|p: (int, int)| self.remaining().contains(p) implies crate::laws::member_set(
                self.grid(),
            ).contains(p) by {}
            vstd::set_lib::lemma_len_subset(
                self.remaining(),
                crate::laws::member_set(self.grid()),
            );
            if self.grid().s == 0 {
                crate::laws::lemma_axis_member_count(self.grid());
            }
        }
        let mut out: Vec<GridCoord> = Vec::new();
        loop
            invariant
                self.wf(),
                self.grid() == old(self).grid(),
                self.remaining().finite(),
                old(self).remaining().finite(),
                out@.len() + self.remaining().len() == old(self).remaining().len(),
                old(self).grid().s == 0 ==> old(self).remaining().len() <= Self::spec_estimate(
                    old(self).grid(),
                ),
            decreases self.remaining().len(),
        {
            let ghost pre = *self;
            match self.next() {
                Some(coord) => {
                    proof {
                        let k0 = self.k_emitted();
                        let i0 = self.i_emitted();
                        assert(pre.remaining().contains((k0, i0)));
                        vstd::set::axiom_set_remove_len(pre.remaining(), (k0, i0));
                        assert(self.remaining() =~= pre.remaining().remove((k0, i0)));
                    }
                    out.push(coord);
                },
                None => {
                    proof {
                        assert forall|p: (int, int)| !pre.remaining().contains(p) by {
                            if pre.remaining().contains(p) {
                                assert(pre.inner.g.member(p.1, p.0) && pre.inner.at_or_after(
                                    p.0,
                                    p.1,
                                ));
                            }
                        }
                        assert(pre.remaining() =~= Set::<(int, int)>::empty());
                        broadcast use vstd::set::axiom_set_empty_len;

                        assert(Set::<(int, int)>::empty().len() == 0);
                        assert(pre.remaining().len() == 0);
                    }
                    return out;
                },
            }
        }
    }

    /// The row index of the most recently produced position.
    spec fn k_emitted(self) -> int {
        self.inner.k as int
    }

    /// The column index of the most recently produced position.
    spec fn i_emitted(self) -> int {
        self.inner.i as int - 1
    }

    /// Produces the next grid position inside the rectangle, un-rotated
    /// back into the caller's original coordinate frame, or nothing once
    /// the scan is exhausted.  Each call yields the earliest remaining
    /// lattice member in scan order and removes exactly it from the
    /// remaining set.
    pub fn next(&mut self) -> (r: Option<GridCoord>)
        requires
            old(self).wf(),
        ensures
            final(self).wf(),
            final(self).grid() == old(self).grid(),
            r is None ==> !old(self).has_more() && !final(self).has_more(),
            r matches Some(gc) ==> ({
                let g = old(self).grid();
                let k0 = final(self).inner.k as int;
                let i0 = final(self).inner.i as int - 1;
                &&& g.member(i0, k0)
                &&& old(self).inner.at_or_after(k0, i0)
                &&& forall|kk: int, ii: int|
                    g.member(ii, kk) && old(self).inner.at_or_after(kk, ii) ==> (k0 < kk || (
                    k0 == kk && i0 <= ii))
                &&& gc.x.num == g.coord_x_num(i0, k0)
                &&& gc.y.num == g.coord_y_num(i0, k0)
                &&& gc.x.den == g.coord_den()
                &&& gc.y.den == g.coord_den()
                &&& gc.wf()
                &&& final(self).remaining() =~= old(self).remaining().remove((k0, i0))
            }),
    {
        let point = self.inner.next();
        match point {
            Some(p) => {
                let g = &self.inner.g;
                let s = g.s as i128;
                let c = g.c as i128;
                let d = g.d as i128;
                let tlx2 = 2 * (g.tl_x as i128) + (g.w as i128);
                let tly2 = 2 * (g.tl_y as i128) + (g.h as i128);
                let ghost k0 = self.inner.k as int;
                let ghost i0 = self.inner.i as int - 1;
                let ghost a = g.a_of(i0);
                let ghost b = g.b_of(k0);
                proof {
                    lemma_member_in_extent(*g, i0, k0);
                    lemma_product_bound(d as int, tlx2 as int, 0x10000, 0x40000);
                    lemma_product_bound(d as int, tly2 as int, 0x10000, 0x40000);
                    lemma_product_bound(2 * d as int, a, 0x20000, 0x20000);
                    lemma_product_bound(2 * d as int, b, 0x20000, 0x20000);
                }
                let xs = p.x - d * tlx2;
                let ys = p.y - d * tly2;
                proof {
                    lemma_product_bound(c as int, xs as int, 0x10000, 0x800000000);
                    lemma_product_bound(s as int, ys as int, 0x10000, 0x800000000);
                    lemma_product_bound(c as int, ys as int, 0x10000, 0x800000000);
                    lemma_product_bound(s as int, xs as int, 0x10000, 0x800000000);
                    lemma_product_bound(s as int, s as int, 0x10000, 0x10000);
                    lemma_product_bound(c as int, c as int, 0x10000, 0x10000);
                }
                let u = c * xs + s * ys;
                let v = c * ys - s * xs;
                let n = s * s + c * c;
                proof {
                    lemma_unrotate_forms(s as int, c as int, d as int, a, b, xs as int, ys as int);
                    assert(u == g.u_of(i0, k0));
                    assert(v == g.v_of(i0, k0));
                    lemma_product_bound(n as int, tlx2 as int, 0x200000000, 0x40000);
                    lemma_product_bound(n as int, tly2 as int, 0x200000000, 0x40000);
                }
                let x_num = n * tlx2 + u;
                let y_num = n * tly2 + v;
                let den = 2 * n;
                proof {
                    assert(den > 0) by (nonlinear_arith)
                        requires
                            den == 2 * ((s as int) * (s as int) + (c as int) * (c as int)),
                            c >= 1,
                    ;
                }
                Some(
                    GridCoord {
                        x: Frac { num: x_num, den },
                        y: Frac { num: y_num, den },
                    },
                )
            },
            None => None,
        }
    }
}

} // verus!
