//! The library's laws: properties of the rotated-grid scan that hold for
//! every parameter choice, stated and proved once here.
//!
//! The scan's per-call contract says which lattice member each produced
//! point is; these lemmas say what the member set and the produced
//! coordinates amount to: every produced point lies inside the rectangle,
//! an axis-aligned scan is exactly the center-anchored lattice clipped to
//! the rectangle and never exceeds the advertised estimate, rotating and
//! un-rotating a point is the identity for an exact rotation pair,
//! distinct members land on distinct positions, and degenerate spacings
//! leave at most the center.

use vstd::prelude::*;

use vstd::set_lib::lemma_len_subset;
use vstd::set_lib::lemma_len_union;

use crate::angle::normalized_cos;
use crate::angle::normalized_sin;
use crate::lattice::lemma_ceil_characterizes;
use crate::lattice::lemma_ceil_div_char;
use crate::lattice::lemma_floor_characterizes;
use crate::lattice::lemma_floor_div_char;
use crate::optimal_iterator::INDEX_LIMIT;
use crate::optimal_iterator::RotatedGrid;
use crate::optimal_iterator::lemma_member_index_bounds;

verus! {

/// The set of lattice index pairs `(k, i)` whose points fall inside the
/// rotated rectangle: everything the scan produces, as a set.
pub open spec fn member_set(g: RotatedGrid) -> Set<(int, int)> {
    Set::new(|p: (int, int)| g.member(p.1, p.0))
}

/// One row of index pairs: row `kk`, columns `ia` through `ib`.
spec fn index_row(ia: int, ib: int, kk: int) -> Set<(int, int)> {
    Set::new(|p: (int, int)| p.0 == kk && ia <= p.1 <= ib)
}

/// A block of index pairs: rows `ka` through `kb`, columns `ia` through
/// `ib`.
spec fn index_block(ia: int, ib: int, ka: int, kb: int) -> Set<(int, int)> {
    Set::new(|p: (int, int)| ka <= p.0 <= kb && ia <= p.1 <= ib)
}

/// A row of index pairs is finite, with at most one pair per column.
proof fn lemma_index_row_bound(ia: int, ib: int, kk: int)
    requires
        ia <= ib + 1,
    ensures
        index_row(ia, ib, kk).finite(),
        index_row(ia, ib, kk).len() <= ib + 1 - ia,
    decreases ib + 1 - ia,
{
    if ia > ib {
        assert(index_row(ia, ib, kk) =~= Set::empty());
    } else {
        lemma_index_row_bound(ia, ib - 1, kk);
        assert(index_row(ia, ib, kk) =~= index_row(ia, ib - 1, kk).insert((kk, ib)));
        vstd::set::axiom_set_insert_len(index_row(ia, ib - 1, kk), (kk, ib));
    }
}

/// A block of index pairs is finite, with at most columns times rows
/// many pairs.
proof fn lemma_index_block_bound(ia: int, ib: int, ka: int, kb: int)
    requires
        ia <= ib + 1,
        ka <= kb + 1,
    ensures
        index_block(ia, ib, ka, kb).finite(),
        index_block(ia, ib, ka, kb).len() <= (ib + 1 - ia) * (kb + 1 - ka),
    decreases kb + 1 - ka,
{
    if ka > kb {
        assert(index_block(ia, ib, ka, kb) =~= Set::empty());
        assert((ib + 1 - ia) * (kb + 1 - ka) == 0) by (nonlinear_arith)
            requires
                kb + 1 - ka == 0,
        ;
    } else {
        lemma_index_block_bound(ia, ib, ka, kb - 1);
        lemma_index_row_bound(ia, ib, kb);
        assert(index_block(ia, ib, ka, kb) =~= index_block(ia, ib, ka, kb - 1).union(
            index_row(ia, ib, kb),
        ));
        lemma_len_union(index_block(ia, ib, ka, kb - 1), index_row(ia, ib, kb));
        assert((ib + 1 - ia) * (kb - ka) + (ib + 1 - ia) == (ib + 1 - ia) * (kb + 1 - ka))
            by (nonlinear_arith);
    }
}

/// The member set of every grid is finite: all members fit in the block
/// of indices within [`INDEX_LIMIT`].
pub proof fn lemma_member_set_finite(g: RotatedGrid)
    requires
        g.wf(),
    ensures
        member_set(g).finite(),
{
    let lim = INDEX_LIMIT as int;
    lemma_index_block_bound(-lim + 1, lim - 1, -lim + 1, lim - 1);
    assert forall|p: (int, int)| member_set(g).contains(p) implies index_block(
        -lim + 1,
        lim - 1,
        -lim + 1,
        lim - 1,
    ).contains(p) by {
        lemma_member_index_bounds(g, p.1, p.0);
    }
    lemma_len_subset(
        member_set(g),
        index_block(-lim + 1, lim - 1, -lim + 1, lim - 1),
    );
}

/// Linear form of an axis offset in its index.
proof fn lemma_axis_offset_linear(d: int, step: int, phase: int, idx: int)
    by (nonlinear_arith)
    ensures
        2 * d * (phase + idx * step) == (2 * d * step) * idx + 2 * d * phase,
{
}

/// Containment: every produced coordinate lies inside the rectangle.
/// The X coordinate of any member, as the rational
/// `coord_x_num / coord_den`, is at least `tl_x` and at most
/// `tl_x + w`, and likewise for Y; so each produced grid position falls
/// within the rectangle the scan was built over.
pub proof fn lemma_containment(g: RotatedGrid, i: int, k: int)
    requires
        g.wf(),
        g.member(i, k),
    ensures
        g.tl_x * g.coord_den() <= g.coord_x_num(i, k) <= (g.tl_x + g.w) * g.coord_den(),
        g.tl_y * g.coord_den() <= g.coord_y_num(i, k) <= (g.tl_y + g.h) * g.coord_den(),
        g.coord_den() > 0,
{
    let n = g.n2();
    let u = g.u_of(i, k);
    let v = g.v_of(i, k);
    assert(n > 0) by (nonlinear_arith)
        requires
            n == g.s * g.s + g.c * g.c,
            g.c > 0,
    ;
    assert(g.tl_x * (2 * n) == n * (2 * g.tl_x) && (g.tl_x + g.w) * (2 * n) == n * (2 * g.tl_x
        + g.w) + n * g.w && n * (2 * g.tl_x + g.w) == n * (2 * g.tl_x) + n * g.w)
        by (nonlinear_arith);
    assert(g.tl_y * (2 * n) == n * (2 * g.tl_y) && (g.tl_y + g.h) * (2 * n) == n * (2 * g.tl_y
        + g.h) + n * g.h && n * (2 * g.tl_y + g.h) == n * (2 * g.tl_y) + n * g.h)
        by (nonlinear_arith);
    assert(-(g.w * n) <= u <= g.w * n && -(g.h * n) <= v <= g.h * n);
    assert(g.w * n == n * g.w && g.h * n == n * g.h) by (nonlinear_arith);
}

/// The four quadrant angles fold to one rotation pair.  Whatever the
/// denominator, the rotations by zero, a quarter, a half, and three
/// quarters of a turn all normalize to the pair `(0, d)`, so grids built
/// at those four angles carry identical parameters and therefore equal
/// member sets and equal produced coordinates.
pub proof fn lemma_quadrant_angles_fold(d: int)
    requires
        d >= 1,
    ensures
        normalized_sin(0, d) == 0 && normalized_cos(0, d) == d,
        normalized_sin(d, 0) == 0 && normalized_cos(d, 0) == d,
        normalized_sin(0, -d) == 0 && normalized_cos(0, -d) == d,
        normalized_sin(-d, 0) == 0 && normalized_cos(-d, 0) == d,
{
}

/// The member conditions of an axis-aligned scan split per axis: with the
/// sine zero, a lattice point is a member exactly when its column offset
/// and its row offset each stay within half the rectangle's extent,
/// scaled by the cosine over the denominator.
pub proof fn lemma_axis_member_split(g: RotatedGrid, i: int, k: int)
    requires
        g.wf(),
        g.s == 0,
    ensures
        g.member(i, k) == (-(g.w * g.c) <= 2 * g.d * g.a_of(i) <= g.w * g.c && -(g.h * g.c)
            <= 2 * g.d * g.b_of(k) <= g.h * g.c),
{
    let a = g.a_of(i);
    let b = g.b_of(k);
    let c = g.c as int;
    let d = g.d as int;
    let w = g.w as int;
    let h = g.h as int;
    assert(g.n2() == c * c) by (nonlinear_arith)
        requires
            g.n2() == g.s * g.s + g.c * g.c,
            g.s == 0,
            c == g.c,
    ;
    assert(g.u_of(i, k) == c * (2 * d * a) && g.v_of(i, k) == c * (2 * d * b))
        by (nonlinear_arith)
        requires
            g.u_of(i, k) == 2 * g.d * (g.c * a + g.s * b),
            g.v_of(i, k) == 2 * g.d * (g.c * b - g.s * a),
            g.s == 0,
            c == g.c,
            d == g.d,
    ;
    assert(w * (c * c) == c * (w * c) && h * (c * c) == c * (h * c)) by (nonlinear_arith);
    assert((-(c * (w * c)) <= c * (2 * d * a) <= c * (w * c)) == (-(w * c) <= 2 * d * a <= w
        * c)) by (nonlinear_arith)
        requires
            c > 0,
    ;
    assert((-(c * (h * c)) <= c * (2 * d * b) <= c * (h * c)) == (-(h * c) <= 2 * d * b <= h
        * c)) by (nonlinear_arith)
        requires
            c > 0,
    ;
}

/// Quadrant idempotence: an exact axis-aligned rotation scans exactly the
/// unrotated grid.  With the sine zero and the cosine equal to the
/// denominator — the normalized form of all four quadrant angles — the
/// members are exactly the lattice points whose offsets from the center
/// fit inside the rectangle, and each one's produced coordinate is the
/// plain lattice position `center + offset + (i * dx, k * dy)`, written
/// over the common denominator.
pub proof fn lemma_axis_aligned_grid(g: RotatedGrid, i: int, k: int)
    requires
        g.wf(),
        g.s == 0,
        g.c == g.d,
    ensures
        g.member(i, k) == (-g.w <= 2 * g.a_of(i) <= g.w && -g.h <= 2 * g.b_of(k) <= g.h),
        g.coord_den() == 2 * g.d * g.d,
        g.coord_x_num(i, k) == g.d * g.d * (2 * g.tl_x + g.w + 2 * g.a_of(i)),
        g.coord_y_num(i, k) == g.d * g.d * (2 * g.tl_y + g.h + 2 * g.b_of(k)),
{
    let a = g.a_of(i);
    let b = g.b_of(k);
    let d = g.d as int;
    let w = g.w as int;
    let h = g.h as int;
    lemma_axis_member_split(g, i, k);
    assert((-(w * d) <= 2 * d * a <= w * d) == (-w <= 2 * a <= w)) by (nonlinear_arith)
        requires
            d > 0,
    ;
    assert((-(h * d) <= 2 * d * b <= h * d) == (-h <= 2 * b <= h)) by (nonlinear_arith)
        requires
            d > 0,
    ;
    assert(g.n2() == d * d) by (nonlinear_arith)
        requires
            g.n2() == g.s * g.s + g.c * g.c,
            g.s == 0,
            g.c == g.d,
            d == g.d,
    ;
    assert(2 * (d * d) == 2 * d * d) by (nonlinear_arith);
    assert(g.u_of(i, k) == 2 * g.d * (g.c * a + g.s * b));
    assert(g.coord_x_num(i, k) == d * d * (2 * g.tl_x + w) + 2 * g.d * (g.c * a + g.s * b));
    assert(d * d * (2 * g.tl_x + w) + 2 * d * (d * a + 0 * b) == d * d * (2 * g.tl_x + w + 2
        * a)) by (nonlinear_arith);
    assert(d * d * (2 * g.tl_y + h) + 2 * d * (d * b - 0 * a) == d * d * (2 * g.tl_y + h + 2
        * b)) by (nonlinear_arith);
}

/// Round trip: rotating a point around a pivot and then rotating the
/// result by the opposite angle around the same pivot returns the
/// original point, whenever the rotation pair is exactly unit length.
/// The forms here are exactly what [`crate::Vector::rotate_around_with`]
/// returns.  Each rotation scales by the denominator, so the pivot of
/// the second rotation is the scaled pivot, and the round trip returns
/// the original point scaled by the squared denominator.
pub proof fn lemma_rotation_round_trip(
    x: int,
    y: int,
    px: int,
    py: int,
    s: int,
    c: int,
    d: int,
)
    requires
        s * s + c * c == d * d,
    ensures
        ({
            let x1 = (x - px) * c - (y - py) * s + px * d;
            let y1 = (x - px) * s + (y - py) * c + py * d;
            let x2 = (x1 - px * d) * c - (y1 - py * d) * (-s) + (px * d) * d;
            let y2 = (x1 - px * d) * (-s) + (y1 - py * d) * c + (py * d) * d;
            x2 == d * d * x && y2 == d * d * y
        }),
{
    let x1 = (x - px) * c - (y - py) * s + px * d;
    let y1 = (x - px) * s + (y - py) * c + py * d;
    assert((x1 - px * d) * c + (y1 - py * d) * s == (x - px) * (c * c + s * s))
        by (nonlinear_arith)
        requires
            x1 == (x - px) * c - (y - py) * s + px * d,
            y1 == (x - px) * s + (y - py) * c + py * d,
    ;
    assert((y1 - py * d) * c - (x1 - px * d) * s == (y - py) * (c * c + s * s))
        by (nonlinear_arith)
        requires
            x1 == (x - px) * c - (y - py) * s + px * d,
            y1 == (x - px) * s + (y - py) * c + py * d,
    ;
    assert((x - px) * (c * c + s * s) + (px * d) * d == d * d * x) by (nonlinear_arith)
        requires
            s * s + c * c == d * d,
    ;
    assert((y - py) * (c * c + s * s) + (py * d) * d == d * d * y) by (nonlinear_arith)
        requires
            s * s + c * c == d * d,
    ;
    assert((x1 - px * d) * c - (y1 - py * d) * (-s) == (x1 - px * d) * c + (y1 - py * d) * s)
        by (nonlinear_arith);
    assert((x1 - px * d) * (-s) + (y1 - py * d) * c == (y1 - py * d) * c - (x1 - px * d) * s)
        by (nonlinear_arith);
}

/// Counting bound for axis-aligned scans: all member columns fit within
/// the advertised estimate of columns, and all member rows within the
/// estimate of rows.  Together the members fit in a block of at most
/// `((w - 1) / dx + 2) * ((h - 1) / dy + 2)` lattice points — the upper
/// bound [`crate::GridPositionIterator::estimate_max_grid_points`]
/// advertises.
pub proof fn lemma_axis_aligned_count_bound(
    g: RotatedGrid,
    i1: int,
    k1: int,
    i2: int,
    k2: int,
)
    requires
        g.wf(),
        g.s == 0,
        g.member(i1, k1),
        g.member(i2, k2),
    ensures
        i2 - i1 + 1 <= (g.w - 1) / (g.dx as int) + 2,
        k2 - k1 + 1 <= (g.h - 1) / (g.dy as int) + 2,
{
    let c = g.c as int;
    let d = g.d as int;
    let w = g.w as int;
    let h = g.h as int;
    let dx = g.dx as int;
    let dy = g.dy as int;
    lemma_axis_member_split(g, i1, k1);
    lemma_axis_member_split(g, i2, k2);
    assert(w * c <= w * d && h * c <= h * d) by (nonlinear_arith)
        requires
            0 < c <= d,
            w >= 1,
            h >= 1,
    ;
    assert((i2 - i1) * (2 * d * dx) <= 2 * (w * d)) by (nonlinear_arith)
        requires
            2 * d * g.a_of(i1) >= -(w * d),
            2 * d * g.a_of(i2) <= w * d,
            g.a_of(i1) == g.x0 + i1 * dx,
            g.a_of(i2) == g.x0 + i2 * dx,
            d >= 1,
            dx >= 1,
    ;
    assert((k2 - k1) * (2 * d * dy) <= 2 * (h * d)) by (nonlinear_arith)
        requires
            2 * d * g.b_of(k1) >= -(h * d),
            2 * d * g.b_of(k2) <= h * d,
            g.b_of(k1) == g.y0 + k1 * dy,
            g.b_of(k2) == g.y0 + k2 * dy,
            d >= 1,
            dy >= 1,
    ;
    vstd::arithmetic::div_mod::lemma_fundamental_div_mod(w - 1, dx);
    vstd::arithmetic::div_mod::lemma_mod_bound(w - 1, dx);
    vstd::arithmetic::div_mod::lemma_fundamental_div_mod(h - 1, dy);
    vstd::arithmetic::div_mod::lemma_mod_bound(h - 1, dy);
    assert(i2 - i1 <= (w - 1) / dx + 1) by (nonlinear_arith)
        requires
            (i2 - i1) * (2 * d * dx) <= 2 * (w * d),
            w - 1 == dx * ((w - 1) / dx) + (w - 1) % dx,
            0 <= (w - 1) % dx < dx,
            d >= 1,
            dx >= 1,
            w >= 1,
    ;
    assert(k2 - k1 <= (h - 1) / dy + 1) by (nonlinear_arith)
        requires
            (k2 - k1) * (2 * d * dy) <= 2 * (h * d),
            h - 1 == dy * ((h - 1) / dy) + (h - 1) % dy,
            0 <= (h - 1) % dy < dy,
            d >= 1,
            dy >= 1,
            h >= 1,
    ;
}

/// The counted upper bound for axis-aligned scans: the member set of a
/// grid with zero sine is finite and holds at most
/// `((w - 1) / dx + 2) * ((h - 1) / dy + 2)` members — the estimate
/// [`crate::GridPositionIterator::estimate_max_grid_points`] advertises.
/// Under rotation the bound can fail (a thin rectangle turned almost a
/// quarter turn meets more lattice rows than its own height admits), so
/// the estimate is an upper bound only for the axis-aligned case.
pub proof fn lemma_axis_member_count(g: RotatedGrid)
    requires
        g.wf(),
        g.s == 0,
    ensures
        member_set(g).finite(),
        member_set(g).len() <= ((g.w - 1) / (g.dx as int) + 2) * ((g.h - 1) / (
        g.dy as int) + 2),
{
    lemma_member_set_finite(g);
    let w = g.w as int;
    let h = g.h as int;
    let c = g.c as int;
    let d = g.d as int;
    let dx = g.dx as int;
    let dy = g.dy as int;
    let x0 = g.x0 as int;
    let y0 = g.y0 as int;
    let est_x = (w - 1) / dx + 2;
    let est_y = (h - 1) / dy + 2;
    lemma_floor_div_char(w - 1, dx);
    lemma_floor_div_char(h - 1, dy);
    assert(est_x >= 2) by (nonlinear_arith)
        requires
            dx * (est_x - 2) <= w - 1 < dx * (est_x - 1),
            dx >= 1,
            w >= 1,
    ;
    assert(est_y >= 2) by (nonlinear_arith)
        requires
            dy * (est_y - 2) <= h - 1 < dy * (est_y - 1),
            dy >= 1,
            h >= 1,
    ;
    if exists|p: (int, int)| member_set(g).contains(p) {
        let p0 = choose|p: (int, int)| member_set(g).contains(p);
        let gx = 2 * d * dx;
        let lx = -(w * c) - 2 * d * x0;
        let ux = w * c - 2 * d * x0;
        let gy = 2 * d * dy;
        let ly = -(h * c) - 2 * d * y0;
        let uy = h * c - 2 * d * y0;
        assert(gx > 0 && gy > 0) by (nonlinear_arith)
            requires
                gx == 2 * d * dx,
                gy == 2 * d * dy,
                d >= 1,
                dx >= 1,
                dy >= 1,
        ;
        let ia = -((-lx) / gx);
        let ib = ux / gx;
        let ka = -((-ly) / gy);
        let kb = uy / gy;
        lemma_ceil_div_char(lx, gx);
        lemma_floor_div_char(ux, gx);
        lemma_ceil_div_char(ly, gy);
        lemma_floor_div_char(uy, gy);
        assert forall|i: int, k: int| #[trigger]
            g.member(i, k) == (ia <= i <= ib && ka <= k <= kb) by {
            lemma_axis_member_split(g, i, k);
            lemma_axis_offset_linear(d, dx, x0, i);
            lemma_axis_offset_linear(d, dy, y0, k);
            lemma_ceil_characterizes(lx, gx, ia, i);
            lemma_floor_characterizes(ux, gx, ib, i);
            lemma_ceil_characterizes(ly, gy, ka, k);
            lemma_floor_characterizes(uy, gy, kb, k);
        }
        assert(g.member(p0.1, p0.0));
        assert(ia <= p0.1 <= ib && ka <= p0.0 <= kb);
        assert(g.member(ia, p0.0) && g.member(ib, p0.0));
        assert(g.member(p0.1, ka) && g.member(p0.1, kb));
        lemma_axis_aligned_count_bound(g, ia, p0.0, ib, p0.0);
        lemma_axis_aligned_count_bound(g, p0.1, ka, p0.1, kb);
        assert forall|p: (int, int)| member_set(g).contains(p) implies index_block(
            ia,
            ib,
            ka,
            kb,
        ).contains(p) by {
            assert(g.member(p.1, p.0));
        }
        lemma_index_block_bound(ia, ib, ka, kb);
        lemma_len_subset(member_set(g), index_block(ia, ib, ka, kb));
        assert((ib + 1 - ia) * (kb + 1 - ka) <= est_x * est_y) by (nonlinear_arith)
            requires
                1 <= ib + 1 - ia <= est_x,
                1 <= kb + 1 - ka <= est_y,
        ;
    } else {
        assert(member_set(g) =~= Set::empty());
        assert(est_x * est_y >= 0) by (nonlinear_arith)
            requires
                est_x >= 2,
                est_y >= 2,
        ;
    }
}

/// Distinct lattice members produce distinct coordinates: the map from
/// index pairs to produced rationals is injective, so a scan that yields
/// each member once never repeats a grid position.
pub proof fn lemma_coord_injective(g: RotatedGrid, i1: int, k1: int, i2: int, k2: int)
    requires
        g.wf(),
        g.coord_x_num(i1, k1) == g.coord_x_num(i2, k2),
        g.coord_y_num(i1, k1) == g.coord_y_num(i2, k2),
    ensures
        i1 == i2,
        k1 == k2,
{
    let s = g.s as int;
    let c = g.c as int;
    let d = g.d as int;
    let n = g.n2();
    let a1 = g.a_of(i1);
    let b1 = g.b_of(k1);
    let a2 = g.a_of(i2);
    let b2 = g.b_of(k2);
    assert(g.u_of(i1, k1) == g.u_of(i2, k2) && g.v_of(i1, k1) == g.v_of(i2, k2));
    crate::optimal_iterator::lemma_uv_inverse(s, c, d, a1, b1, g.u_of(i1, k1), g.v_of(i1, k1), n);
    crate::optimal_iterator::lemma_uv_inverse(s, c, d, a2, b2, g.u_of(i2, k2), g.v_of(i2, k2), n);
    assert(n * (2 * d * a1) == n * (2 * d * a2));
    assert(n * (2 * d * b1) == n * (2 * d * b2));
    assert(a1 == a2 && b1 == b2) by (nonlinear_arith)
        requires
            n * (2 * d * a1) == n * (2 * d * a2),
            n * (2 * d * b1) == n * (2 * d * b2),
            n == g.s * g.s + g.c * g.c,
            g.c >= 1,
            d >= 1,
    ;
    assert(i1 == i2) by (nonlinear_arith)
        requires
            g.x0 + i1 * g.dx == g.x0 + i2 * g.dx,
            g.dx >= 1,
    ;
    assert(k1 == k2) by (nonlinear_arith)
        requires
            g.y0 + k1 * g.dy == g.y0 + k2 * g.dy,
            g.dy >= 1,
    ;
}

/// Degenerate spacing: with zero offsets and an exact axis-aligned
/// rotation, a spacing at least the rectangle's extent on each axis
/// leaves exactly one member, the rectangle's center.
pub proof fn lemma_degenerate_spacing(g: RotatedGrid, i: int, k: int)
    requires
        g.wf(),
        g.s == 0,
        g.c == g.d,
        g.x0 == 0,
        g.y0 == 0,
        g.dx >= g.w,
        g.dy >= g.h,
    ensures
        g.member(i, k) == (i == 0 && k == 0),
{
    lemma_axis_aligned_grid(g, i, k);
    assert(g.a_of(i) == i * g.dx && g.b_of(k) == k * g.dy);
    if i == 0 && k == 0 {
        assert(0 * g.dx == 0 && 0 * g.dy == 0) by (nonlinear_arith);
    } else {
        assert((-g.w <= 2 * (i * g.dx) <= g.w) ==> i == 0) by (nonlinear_arith)
            requires
                g.dx >= g.w,
                g.w >= 1,
        ;
        assert((-g.h <= 2 * (k * g.dy) <= g.h) ==> k == 0) by (nonlinear_arith)
            requires
                g.dy >= g.h,
                g.h >= 1,
        ;
    }
}

/// Degenerate spacing with an arbitrary phase: once the spacing strictly
/// exceeds the rectangle's extent along an axis, no two members differ
/// in that axis's index, whatever the offsets.
pub proof fn lemma_degenerate_spacing_unique(
    g: RotatedGrid,
    i1: int,
    k1: int,
    i2: int,
    k2: int,
)
    requires
        g.wf(),
        g.s == 0,
        g.c == g.d,
        g.dx > g.w,
        g.member(i1, k1),
        g.member(i2, k2),
    ensures
        i1 == i2,
{
    lemma_axis_aligned_grid(g, i1, k1);
    lemma_axis_aligned_grid(g, i2, k2);
    assert(i1 == i2) by (nonlinear_arith)
        requires
            -g.w <= 2 * (g.x0 + i1 * g.dx) <= g.w,
            -g.w <= 2 * (g.x0 + i2 * g.dx) <= g.w,
            g.dx > g.w,
            g.w >= 1,
    ;
}

} // verus!
