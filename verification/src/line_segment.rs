//! The [`LineSegment`] type: a finite segment from a start point along an
//! extent vector, used to describe rectangle edges.

use vstd::prelude::*;

use crate::line::COORD_LIMIT;
use crate::line::Line;
use crate::vector::Vector;

verus! {

/// A line segment determined by a start point and the vector spanning it
/// to its end.
#[derive(Clone, Copy, Debug, PartialEq, Eq, Structural)]
pub struct LineSegment {
    /// The start point of the line segment.
    pub start: Vector,
    /// The extent of the line segment: its end lies at `start + direction`.
    pub direction: Vector,
}

impl LineSegment {
    /// A segment's extent is nonzero and its coordinates are within the
    /// accepted range.
    pub open spec fn wf(self) -> bool {
        &&& !(self.direction.x == 0 && self.direction.y == 0)
        &&& -COORD_LIMIT <= self.start.x <= COORD_LIMIT
        &&& -COORD_LIMIT <= self.start.y <= COORD_LIMIT
        &&& -COORD_LIMIT <= self.direction.x <= COORD_LIMIT
        &&& -COORD_LIMIT <= self.direction.y <= COORD_LIMIT
    }

    /// The infinite line through the segment, as a spec value.
    pub open spec fn line(self) -> Line {
        Line { origin: self.start, direction: self.direction }
    }

    /// Constructs a segment from a start point and its extent vector.
    pub fn new(origin: Vector, length: Vector) -> (seg: LineSegment)
        requires
            !(length.x == 0 && length.y == 0),
            -COORD_LIMIT <= origin.x <= COORD_LIMIT,
            -COORD_LIMIT <= origin.y <= COORD_LIMIT,
            -COORD_LIMIT <= length.x <= COORD_LIMIT,
            -COORD_LIMIT <= length.y <= COORD_LIMIT,
        ensures
            seg.start == origin,
            seg.direction == length,
            seg.wf(),
    {
        LineSegment { start: origin, direction: length }
    }

    /// Constructs the segment between two points, directed from the first
    /// to the second.
    pub fn from_points(a: Vector, b: &Vector) -> (seg: LineSegment)
        requires
            a != *b,
            -COORD_LIMIT <= a.x <= COORD_LIMIT,
            -COORD_LIMIT <= a.y <= COORD_LIMIT,
            -COORD_LIMIT <= b.x <= COORD_LIMIT,
            -COORD_LIMIT <= b.y <= COORD_LIMIT,
            -COORD_LIMIT <= b.x - a.x <= COORD_LIMIT,
            -COORD_LIMIT <= b.y - a.y <= COORD_LIMIT,
        ensures
            seg.start == a,
            seg.direction.x == b.x - a.x,
            seg.direction.y == b.y - a.y,
            seg.wf(),
    {
        LineSegment { start: a, direction: Vector { x: b.x - a.x, y: b.y - a.y } }
    }

    /// The infinite line through the segment.  The direction is the
    /// segment's exact extent vector rather than a unit vector, so a
    /// whole direction length along the line spans the whole segment.
    pub fn normalized(&self) -> (l: Line)
        requires
            self.wf(),
        ensures
            l == self.line(),
            l.wf(),
    {
        Line { origin: self.start, direction: self.direction }
    }

    /// The start point of the line segment.
    pub fn start(&self) -> (v: &Vector)
        ensures
            *v == self.start,
    {
        &self.start
    }

    /// The start point of the line segment.
    pub fn origin(&self) -> (v: &Vector)
        ensures
            *v == self.start,
    {
        &self.start
    }

    /// The extent vector of the line segment.
    pub fn direction(&self) -> (v: &Vector)
        ensures
            *v == self.direction,
    {
        &self.direction
    }

    /// The extent vector of the line segment: its length and direction.
    pub fn length(&self) -> (v: &Vector)
        ensures
            *v == self.direction,
    {
        &self.direction
    }
}

} // verus!
