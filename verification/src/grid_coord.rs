//! The [`GridCoord`] type: a produced grid position in the caller's
//! original, unrotated coordinate frame.

use vstd::prelude::*;

use crate::frac::Frac;

verus! {

/// A coordinate on the grid, as a pair of exact rationals.
#[derive(Clone, Copy, Debug, PartialEq, Eq, Structural)]
pub struct GridCoord {
    /// The X coordinate along the grid.
    pub x: Frac,
    /// The Y coordinate along the grid.
    pub y: Frac,
}

impl GridCoord {
    /// Both coordinates carry positive denominators.
    pub open spec fn wf(self) -> bool {
        self.x.wf() && self.y.wf()
    }

    /// Creates a new grid coordinate.
    pub fn new(x: Frac, y: Frac) -> (c: GridCoord)
        ensures
            c == (GridCoord { x, y }),
    {
        GridCoord { x, y }
    }

    /// Converts this [`GridCoord`] into a tuple of X and Y coordinates, in
    /// that order.
    pub fn into_xy(self) -> (r: (Frac, Frac))
        ensures
            r.0 == self.x,
            r.1 == self.y,
    {
        (self.x, self.y)
    }

    /// Whether this coordinate precedes the other in raster order: by the
    /// Y coordinate first, then by the X coordinate.  This is the order a
    /// top-down consumer sorts by.
    pub fn precedes(&self, other: &GridCoord) -> (r: bool)
        requires
            self.wf(),
            other.wf(),
            i128::MIN <= self.y.num * other.y.den <= i128::MAX,
            i128::MIN <= other.y.num * self.y.den <= i128::MAX,
            i128::MIN <= self.x.num * other.x.den <= i128::MAX,
            i128::MIN <= other.x.num * self.x.den <= i128::MAX,
        ensures
            r == (self.y.num * other.y.den < other.y.num * self.y.den || (self.y.same_value(
                other.y) && self.x.num * other.x.den < other.x.num * self.x.den)),
    {
        if self.y.num * other.y.den < other.y.num * self.y.den {
            true
        } else if self.y.num * other.y.den == other.y.num * self.y.den {
            self.x.num * other.x.den < other.x.num * self.x.den
        } else {
            false
        }
    }
}

} // verus!
