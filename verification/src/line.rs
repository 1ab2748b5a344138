//! The [`Line`] type: an infinite ray from an origin point along a
//! direction vector, with exact line-line intersection.
//!
//! The direction is kept as the exact integer vector it was built from
//! rather than being normalized: a unit direction is irrational in
//! general, while the parametric intersection works for any nonzero
//! direction.  The parameter `t` of a point `origin + t * direction`
//! therefore counts in lengths of the direction vector, and comes back as
//! an exact rational.

use vstd::prelude::*;

use crate::frac::Frac;
use crate::line_segment::LineSegment;
use crate::vector::Vector;

verus! {

/// The largest coordinate magnitude the line operations accept; products
/// of three such coordinates stay well inside `i128`.
pub const COORD_LIMIT: i128 = 0x10000000000;

/// A line determined by a ray starting at a point of origin.
#[derive(Clone, Copy, Debug, PartialEq, Eq, Structural)]
pub struct Line {
    /// The origin point of the line.
    pub origin: Vector,
    /// The direction vector of the line; never the zero vector.
    pub direction: Vector,
}

impl Line {
    /// A line's direction is nonzero and its coordinates are within the
    /// accepted range.
    pub open spec fn wf(self) -> bool {
        &&& !(self.direction.x == 0 && self.direction.y == 0)
        &&& -COORD_LIMIT <= self.origin.x <= COORD_LIMIT
        &&& -COORD_LIMIT <= self.origin.y <= COORD_LIMIT
        &&& -COORD_LIMIT <= self.direction.x <= COORD_LIMIT
        &&& -COORD_LIMIT <= self.direction.y <= COORD_LIMIT
    }

    /// The determinant of this line's direction with the other's: zero
    /// exactly when the lines are parallel or coincident.
    pub open spec fn det_with(self, other: Line) -> int {
        self.direction.x * other.direction.y - self.direction.y * other.direction.x
    }

    /// The numerator of the intersection parameter along this line, over
    /// [`Line::det_with`].
    pub open spec fn t_num_with(self, other: Line) -> int {
        (other.origin.x - self.origin.x) * other.direction.y - (other.origin.y
            - self.origin.y) * other.direction.x
    }

    /// The numerator of the intersection parameter along the other line,
    /// over [`Line::det_with`].
    pub open spec fn u_num_with(self, other: Line) -> int {
        (other.origin.x - self.origin.x) * self.direction.y - (other.origin.y
            - self.origin.y) * self.direction.x
    }

    /// Constructs a line from an origin point and a direction.
    pub fn new(origin: Vector, direction: Vector) -> (l: Line)
        requires
            !(direction.x == 0 && direction.y == 0),
            -COORD_LIMIT <= origin.x <= COORD_LIMIT,
            -COORD_LIMIT <= origin.y <= COORD_LIMIT,
            -COORD_LIMIT <= direction.x <= COORD_LIMIT,
            -COORD_LIMIT <= direction.y <= COORD_LIMIT,
        ensures
            l.origin == origin,
            l.direction == direction,
            l.wf(),
    {
        Line { origin, direction }
    }

    /// Constructs a line through two points, directed from the first to
    /// the second.
    pub fn from_points(a: Vector, b: &Vector) -> (l: Line)
        requires
            a != *b,
            -COORD_LIMIT <= a.x <= COORD_LIMIT,
            -COORD_LIMIT <= a.y <= COORD_LIMIT,
            -COORD_LIMIT <= b.x <= COORD_LIMIT,
            -COORD_LIMIT <= b.y <= COORD_LIMIT,
            -COORD_LIMIT <= b.x - a.x <= COORD_LIMIT,
            -COORD_LIMIT <= b.y - a.y <= COORD_LIMIT,
        ensures
            l.origin == a,
            l.direction.x == b.x - a.x,
            l.direction.y == b.y - a.y,
            l.wf(),
    {
        Line { origin: a, direction: Vector { x: b.x - a.x, y: b.y - a.y } }
    }

    /// The origin point of the line.
    pub fn origin(&self) -> (v: &Vector)
        ensures
            *v == self.origin,
    {
        &self.origin
    }

    /// The direction vector of the line.
    pub fn direction(&self) -> (v: &Vector)
        ensures
            *v == self.direction,
    {
        &self.direction
    }

    /// The projection of a point onto the line's parameter: the dot
    /// product of the direction with the offset from the origin.
    pub fn dot(&self, point: &Vector) -> (r: i128)
        requires
            self.wf(),
            -COORD_LIMIT <= point.x <= COORD_LIMIT,
            -COORD_LIMIT <= point.y <= COORD_LIMIT,
        ensures
            r == self.direction.x * (point.x - self.origin.x) + self.direction.y * (point.y
                - self.origin.y),
    {
        proof {
            lemma_coord_product_bound(
                self.direction.x as int,
                point.x - self.origin.x,
                COORD_LIMIT as int,
                2 * (COORD_LIMIT as int),
            );
            lemma_coord_product_bound(
                self.direction.y as int,
                point.y - self.origin.y,
                COORD_LIMIT as int,
                2 * (COORD_LIMIT as int),
            );
        }
        self.direction.x * (point.x - self.origin.x) + self.direction.y * (point.y
            - self.origin.y)
    }

    /// The signed area spanned by the line's direction and the offset of
    /// the point from the origin: positive when the point lies to the
    /// left of the line, zero on it, and scaled by the direction's
    /// length.
    pub fn distance(&self, point: &Vector) -> (r: i128)
        requires
            self.wf(),
            -COORD_LIMIT <= point.x <= COORD_LIMIT,
            -COORD_LIMIT <= point.y <= COORD_LIMIT,
        ensures
            r == self.direction.x * (point.y - self.origin.y) - self.direction.y * (point.x
                - self.origin.x),
    {
        proof {
            lemma_coord_product_bound(
                self.direction.x as int,
                point.y - self.origin.y,
                COORD_LIMIT as int,
                2 * (COORD_LIMIT as int),
            );
            lemma_coord_product_bound(
                self.direction.y as int,
                point.x - self.origin.x,
                COORD_LIMIT as int,
                2 * (COORD_LIMIT as int),
            );
        }
        self.direction.x * (point.y - self.origin.y) - self.direction.y * (point.x
            - self.origin.x)
    }

    /// The same line traversed the other way: the origin kept, the
    /// direction negated.
    pub fn reversed(&self) -> (l: Line)
        requires
            self.wf(),
        ensures
            l.origin == self.origin,
            l.direction.x == -self.direction.x,
            l.direction.y == -self.direction.y,
            l.wf(),
    {
        Line { origin: self.origin, direction: Vector { x: -self.direction.x, y: -self.direction.y } }
    }

    /// Projects a point out at the given whole number of direction
    /// lengths from the origin.
    pub fn project_out(&self, t: i128) -> (v: Vector)
        requires
            self.wf(),
            -COORD_LIMIT <= t <= COORD_LIMIT,
        ensures
            v.x == self.origin.x + self.direction.x * t,
            v.y == self.origin.y + self.direction.y * t,
    {
        proof {
            lemma_coord_product_bound(
                self.direction.x as int,
                t as int,
                COORD_LIMIT as int,
                COORD_LIMIT as int,
            );
            lemma_coord_product_bound(
                self.direction.y as int,
                t as int,
                COORD_LIMIT as int,
                COORD_LIMIT as int,
            );
        }
        Vector { x: self.origin.x + self.direction.x * t, y: self.origin.y + self.direction.y * t }
    }

    /// Solves this line against the other for the pair of intersection
    /// parameters `(t, u)`: the point `origin + t * direction` equals
    /// `other.origin + u * other.direction`.  Returns nothing exactly
    /// when the lines are parallel or coincident.
    pub fn intersection_params(&self, other: &Line) -> (r: Option<(Frac, Frac)>)
        requires
            self.wf(),
            other.wf(),
        ensures
            (r is Some) == (self.det_with(*other) != 0),
            r matches Some(p) ==> ({
                &&& p.0.den == p.1.den
                &&& self.det_with(*other) > 0 ==> p.0.den == self.det_with(*other) && p.0.num
                    == self.t_num_with(*other) && p.1.num == self.u_num_with(*other)
                &&& self.det_with(*other) < 0 ==> p.0.den == -self.det_with(*other) && p.0.num
                    == -self.t_num_with(*other) && p.1.num == -self.u_num_with(*other)
                &&& p.0.den > 0
                &&& p.0.num * self.direction.x + p.0.den * self.origin.x == p.1.num
                    * other.direction.x + p.0.den * other.origin.x
                &&& p.0.num * self.direction.y + p.0.den * self.origin.y == p.1.num
                    * other.direction.y + p.0.den * other.origin.y
            }),
    {
        let sx = self.direction.x;
        let sy = self.direction.y;
        let ox = other.direction.x;
        let oy = other.direction.y;
        let qx = other.origin.x - self.origin.x;
        let qy = other.origin.y - self.origin.y;
        proof {
            lemma_coord_product_bound(sx as int, oy as int, COORD_LIMIT as int, COORD_LIMIT as int);
            lemma_coord_product_bound(sy as int, ox as int, COORD_LIMIT as int, COORD_LIMIT as int);
            lemma_coord_product_bound(
                qx as int,
                oy as int,
                2 * (COORD_LIMIT as int),
                COORD_LIMIT as int,
            );
            lemma_coord_product_bound(
                qy as int,
                ox as int,
                2 * (COORD_LIMIT as int),
                COORD_LIMIT as int,
            );
            lemma_coord_product_bound(
                qx as int,
                sy as int,
                2 * (COORD_LIMIT as int),
                COORD_LIMIT as int,
            );
            lemma_coord_product_bound(
                qy as int,
                sx as int,
                2 * (COORD_LIMIT as int),
                COORD_LIMIT as int,
            );
        }
        let det = sx * oy - sy * ox;
        if det == 0 {
            return None;
        }
        let tn = qx * oy - qy * ox;
        let un = qx * sy - qy * sx;
        let r = if det > 0 {
            (Frac { num: tn, den: det }, Frac { num: un, den: det })
        } else {
            (Frac { num: -tn, den: -det }, Frac { num: -un, den: -det })
        };
        proof {
            lemma_cramer_solution(
                sx as int,
                sy as int,
                ox as int,
                oy as int,
                qx as int,
                qy as int,
                r.0.num as int,
                r.1.num as int,
                r.0.den as int,
            );
            assert(r.0.den * (other.origin.x - self.origin.x) == r.0.den * other.origin.x
                - r.0.den * self.origin.x) by (nonlinear_arith);
            assert(r.0.den * (other.origin.y - self.origin.y) == r.0.den * other.origin.y
                - r.0.den * self.origin.y) by (nonlinear_arith);
        }
        Some(r)
    }

    /// Determines the intersection of this line with another one, as the
    /// parameter `t` along this line, bounded along the other line.
    ///
    /// ## Arguments
    /// * `other` - The other line to test.
    /// * `max_u` - The largest parameter accepted along the other line.
    ///
    /// ## Returns
    /// * `Some(t)` when the lines intersect at parameter `t >= 0` along
    ///   this line and within `[0, max_u]` along the other.
    /// * `None` when the lines are parallel or coincident, or the
    ///   intersection falls outside those bounds.
    pub fn calculate_intersection_t(&self, other: &Line, max_u: i128) -> (r: Option<Frac>)
        requires
            self.wf(),
            other.wf(),
            0 <= max_u <= COORD_LIMIT,
        ensures
            self.det_with(*other) == 0 ==> r is None,
            self.det_with(*other) > 0 ==> (r is Some) == (self.t_num_with(*other) >= 0 && 0
                <= self.u_num_with(*other) <= max_u * self.det_with(*other)),
            self.det_with(*other) < 0 ==> (r is Some) == (-self.t_num_with(*other) >= 0 && 0
                <= -self.u_num_with(*other) <= max_u * (-self.det_with(*other))),
            r matches Some(t) ==> ({
                &&& t.den > 0
                &&& t.num >= 0
                &&& self.det_with(*other) > 0 ==> t.den == self.det_with(*other) && t.num
                    == self.t_num_with(*other)
                &&& self.det_with(*other) < 0 ==> t.den == -self.det_with(*other) && t.num
                    == -self.t_num_with(*other)
            }),
    {
        match self.intersection_params(other) {
            None => None,
            Some((t, u)) => {
                proof {
                    lemma_coord_product_bound(
                        self.direction.x as int,
                        other.direction.y as int,
                        COORD_LIMIT as int,
                        COORD_LIMIT as int,
                    );
                    lemma_coord_product_bound(
                        self.direction.y as int,
                        other.direction.x as int,
                        COORD_LIMIT as int,
                        COORD_LIMIT as int,
                    );
                    lemma_coord_product_bound(
                        max_u as int,
                        u.den as int,
                        COORD_LIMIT as int,
                        8 * (COORD_LIMIT as int) * (COORD_LIMIT as int),
                    );
                }
                if t.num >= 0 && 0 <= u.num && u.num <= max_u * u.den {
                    Some(t)
                } else {
                    None
                }
            },
        }
    }

    /// Determines the intersection of this ray with a line segment.
    ///
    /// ## Arguments
    /// * `line_segment` - The segment to test.
    ///
    /// ## Returns
    /// * `Some` of the exact intersection point, when the ray meets the
    ///   segment at parameter `t >= 0` along this line and within the
    ///   segment's extent.
    /// * `None` when the lines are parallel or coincident, or the
    ///   intersection falls outside the ray or the segment.
    pub fn intersect_with_segment(&self, line_segment: &LineSegment) -> (r: Option<
        (Frac, Frac),
    >)
        requires
            self.wf(),
            line_segment.wf(),
        ensures
            ({
                let other = line_segment.line();
                &&& self.det_with(other) == 0 ==> r is None
                &&& self.det_with(other) > 0 ==> (r is Some) == (self.t_num_with(other) >= 0
                    && 0 <= self.u_num_with(other) <= self.det_with(other))
                &&& self.det_with(other) < 0 ==> (r is Some) == (-self.t_num_with(other) >= 0
                    && 0 <= -self.u_num_with(other) <= -self.det_with(other))
            }),
            r matches Some(p) ==> ({
                let other = line_segment.line();
                &&& p.0.den == p.1.den
                &&& p.0.den > 0
                &&& self.det_with(other) > 0 ==> p.0.den == self.det_with(other) && p.0.num
                    == self.det_with(other) * self.origin.x + self.t_num_with(other)
                    * self.direction.x && p.1.num == self.det_with(other) * self.origin.y
                    + self.t_num_with(other) * self.direction.y
                &&& self.det_with(other) < 0 ==> p.0.den == -self.det_with(other) && p.0.num
                    == (-self.det_with(other)) * self.origin.x + (-self.t_num_with(other))
                    * self.direction.x && p.1.num == (-self.det_with(other))
                    * self.origin.y + (-self.t_num_with(other)) * self.direction.y
            }),
    {
        let other = line_segment.normalized();
        match self.intersection_params(&other) {
            None => None,
            Some((t, u)) => {
                if t.num >= 0 && 0 <= u.num && u.num <= u.den {
                    proof {
                        lemma_coord_product_bound(
                            self.direction.x as int,
                            other.direction.y as int,
                            COORD_LIMIT as int,
                            COORD_LIMIT as int,
                        );
                        lemma_coord_product_bound(
                            self.direction.y as int,
                            other.direction.x as int,
                            COORD_LIMIT as int,
                            COORD_LIMIT as int,
                        );
                        lemma_coord_product_bound(
                            (other.origin.x - self.origin.x) as int,
                            other.direction.y as int,
                            2 * (COORD_LIMIT as int),
                            COORD_LIMIT as int,
                        );
                        lemma_coord_product_bound(
                            (other.origin.y - self.origin.y) as int,
                            other.direction.x as int,
                            2 * (COORD_LIMIT as int),
                            COORD_LIMIT as int,
                        );
                        lemma_coord_product_bound(
                            t.den as int,
                            self.origin.x as int,
                            8 * (COORD_LIMIT as int) * (COORD_LIMIT as int),
                            COORD_LIMIT as int,
                        );
                        lemma_coord_product_bound(
                            t.den as int,
                            self.origin.y as int,
                            8 * (COORD_LIMIT as int) * (COORD_LIMIT as int),
                            COORD_LIMIT as int,
                        );
                        lemma_coord_product_bound(
                            t.num as int,
                            self.direction.x as int,
                            8 * (COORD_LIMIT as int) * (COORD_LIMIT as int),
                            COORD_LIMIT as int,
                        );
                        lemma_coord_product_bound(
                            t.num as int,
                            self.direction.y as int,
                            8 * (COORD_LIMIT as int) * (COORD_LIMIT as int),
                            COORD_LIMIT as int,
                        );
                    }
                    let xn = t.den * self.origin.x + t.num * self.direction.x;
                    let yn = t.den * self.origin.y + t.num * self.direction.y;
                    Some((Frac { num: xn, den: t.den }, Frac { num: yn, den: t.den }))
                } else {
                    None
                }
            },
        }
    }
}

/// The product of two values is bounded by the product of their bounds.
proof fn lemma_coord_product_bound(x: int, y: int, bx: int, by: int)
    by (nonlinear_arith)
    requires
        -bx <= x <= bx,
        -by <= y <= by,
        0 <= bx,
        0 <= by,
    ensures
        -(bx * by) <= x * y <= bx * by,
{
}

/// Cramer's rule: the normalized pair of numerators over the determinant
/// solves the two-by-two linear system of the intersection.
#[verifier::rlimit(100)]
proof fn lemma_cramer_solution(
    sx: int,
    sy: int,
    ox: int,
    oy: int,
    qx: int,
    qy: int,
    tn: int,
    un: int,
    den: int,
)
    requires
        sx * oy - sy * ox != 0,
        den == (if sx * oy - sy * ox > 0 {
            sx * oy - sy * ox
        } else {
            -(sx * oy - sy * ox)
        }),
        tn == (if sx * oy - sy * ox > 0 {
            qx * oy - qy * ox
        } else {
            -(qx * oy - qy * ox)
        }),
        un == (if sx * oy - sy * ox > 0 {
            qx * sy - qy * sx
        } else {
            -(qx * sy - qy * sx)
        }),
    ensures
        tn * sx - un * ox == den * qx,
        tn * sy - un * oy == den * qy,
{
    let d0 = sx * oy - sy * ox;
    let t0 = qx * oy - qy * ox;
    let u0 = qx * sy - qy * sx;
    assert(t0 * sx - u0 * ox == d0 * qx) by (nonlinear_arith)
        requires
            d0 == sx * oy - sy * ox,
            t0 == qx * oy - qy * ox,
            u0 == qx * sy - qy * sx,
    ;
    assert(t0 * sy - u0 * oy == d0 * qy) by (nonlinear_arith)
        requires
            d0 == sx * oy - sy * ox,
            t0 == qx * oy - qy * ox,
            u0 == qx * sy - qy * sx,
    ;
    if d0 > 0 {
    } else {
        assert((-t0) * sx - (-u0) * ox == (-d0) * qx) by (nonlinear_arith)
            requires
                t0 * sx - u0 * ox == d0 * qx,
        ;
        assert((-t0) * sy - (-u0) * oy == (-d0) * qy) by (nonlinear_arith)
            requires
                t0 * sy - u0 * oy == d0 * qy,
        ;
    }
}

} // verus!
