//! The [`Vector`] type: a two-dimensional point or direction with exact
//! integer coordinates.
//!
//! Rotations are given by an integer sine/cosine pair `(sin, cos)` over a
//! common denominator `denom` (see [`crate::Angle`]).  Applying the rotation
//! matrix to an integer vector multiplies each coordinate by `sin` or `cos`
//! but performs no division, so the result of a rotation method is the
//! rotated vector scaled by `denom`.  Working with the scaled image keeps
//! every coordinate an integer and every contract exact.

use vstd::prelude::*;

use crate::angle::Angle;

verus! {

/// A two-dimensional vector with exact integer coordinates.
#[derive(Clone, Copy, Debug, PartialEq, Eq, Structural)]
pub struct Vector {
    pub x: i128,
    pub y: i128,
}

impl Vector {
    /// Constructs a new vector from the specified coordinates.
    pub fn new(x: i128, y: i128) -> (v: Vector)
        ensures
            v == (Vector { x, y }),
    {
        Vector { x, y }
    }

    /// The sum of two vectors.
    pub fn plus(&self, other: &Vector) -> (v: Vector)
        requires
            i128::MIN <= self.x + other.x <= i128::MAX,
            i128::MIN <= self.y + other.y <= i128::MAX,
        ensures
            v.x == self.x + other.x,
            v.y == self.y + other.y,
    {
        Vector { x: self.x + other.x, y: self.y + other.y }
    }

    /// The difference of two vectors.
    pub fn minus(&self, other: &Vector) -> (v: Vector)
        requires
            i128::MIN <= self.x - other.x <= i128::MAX,
            i128::MIN <= self.y - other.y <= i128::MAX,
        ensures
            v.x == self.x - other.x,
            v.y == self.y - other.y,
    {
        Vector { x: self.x - other.x, y: self.y - other.y }
    }

    /// The vector scaled by an integer factor.
    pub fn scaled(&self, factor: i128) -> (v: Vector)
        requires
            i128::MIN <= self.x * factor <= i128::MAX,
            i128::MIN <= self.y * factor <= i128::MAX,
        ensures
            v.x == self.x * factor,
            v.y == self.y * factor,
    {
        Vector { x: self.x * factor, y: self.y * factor }
    }

    /// The vector with both coordinates negated.
    pub fn negated(&self) -> (v: Vector)
        requires
            self.x != i128::MIN,
            self.y != i128::MIN,
        ensures
            v.x == -self.x,
            v.y == -self.y,
    {
        Vector { x: -self.x, y: -self.y }
    }

    /// The squared Euclidean norm of the vector.
    pub fn norm_sq(&self) -> (r: i128)
        requires
            self.x * self.x + self.y * self.y <= i128::MAX,
        ensures
            r == self.x * self.x + self.y * self.y,
            r >= 0,
    {
        proof {
            assert(self.x * self.x >= 0 && self.y * self.y >= 0) by (nonlinear_arith);
        }
        self.x * self.x + self.y * self.y
    }

    /// The dot product of two vectors.
    pub fn dot(&self, other: &Vector) -> (r: i128)
        requires
            i128::MIN <= self.x * other.x <= i128::MAX,
            i128::MIN <= self.y * other.y <= i128::MAX,
            i128::MIN <= self.x * other.x + self.y * other.y <= i128::MAX,
        ensures
            r == self.x * other.x + self.y * other.y,
    {
        self.x * other.x + self.y * other.y
    }

    /// The two-dimensional cross product (the signed area of the
    /// parallelogram spanned by the two vectors).
    pub fn cross(&self, other: &Vector) -> (r: i128)
        requires
            i128::MIN <= self.x * other.y <= i128::MAX,
            i128::MIN <= self.y * other.x <= i128::MAX,
            i128::MIN <= self.x * other.y - self.y * other.x <= i128::MAX,
        ensures
            r == self.x * other.y - self.y * other.x,
    {
        self.x * other.y - self.y * other.x
    }

    /// The vector rotated a quarter turn counterclockwise.
    pub fn orthogonal(&self) -> (v: Vector)
        requires
            self.y != i128::MIN,
        ensures
            v.x == -self.y,
            v.y == self.x,
    {
        Vector { x: -self.y, y: self.x }
    }

    /// Rotates the vector counterclockwise by the angle whose sine and
    /// cosine are `sin / denom` and `cos / denom`; the result is the rotated
    /// vector scaled by `denom`.
    pub fn rotate_with(&self, sin: i128, cos: i128) -> (v: Vector)
        requires
            i128::MIN <= self.x * cos <= i128::MAX,
            i128::MIN <= self.y * sin <= i128::MAX,
            i128::MIN <= self.x * sin <= i128::MAX,
            i128::MIN <= self.y * cos <= i128::MAX,
            i128::MIN <= self.x * cos - self.y * sin <= i128::MAX,
            i128::MIN <= self.x * sin + self.y * cos <= i128::MAX,
        ensures
            v.x == self.x * cos - self.y * sin,
            v.y == self.x * sin + self.y * cos,
    {
        Vector { x: self.x * cos - self.y * sin, y: self.x * sin + self.y * cos }
    }

    /// Rotates the vector counterclockwise by the specified angle; the
    /// result is the rotated vector scaled by the angle's denominator.
    pub fn rotate(&self, angle: &Angle) -> (v: Vector)
        requires
            i128::MIN <= self.x * angle.cos() <= i128::MAX,
            i128::MIN <= self.y * angle.sin() <= i128::MAX,
            i128::MIN <= self.x * angle.sin() <= i128::MAX,
            i128::MIN <= self.y * angle.cos() <= i128::MAX,
            i128::MIN <= self.x * angle.cos() - self.y * angle.sin() <= i128::MAX,
            i128::MIN <= self.x * angle.sin() + self.y * angle.cos() <= i128::MAX,
        ensures
            v.x == self.x * angle.cos() - self.y * angle.sin(),
            v.y == self.x * angle.sin() + self.y * angle.cos(),
    {
        let (sin, cos) = angle.sin_cos();
        self.rotate_with(sin as i128, cos as i128)
    }

    /// Rotates the vector counterclockwise around the pivot by the angle
    /// whose sine and cosine are `sin / denom` and `cos / denom`.  The
    /// rotation matrix scales the translated coordinates by `denom`, so the
    /// pivot is re-added scaled by `denom` as well: the result is the
    /// rotated point scaled by `denom`.
    pub fn rotate_around_with(&self, pivot: &Vector, sin: i128, cos: i128, denom: i128) -> (v:
        Vector)
        requires
            i128::MIN <= self.x - pivot.x <= i128::MAX,
            i128::MIN <= self.y - pivot.y <= i128::MAX,
            i128::MIN <= (self.x - pivot.x) * cos <= i128::MAX,
            i128::MIN <= (self.y - pivot.y) * sin <= i128::MAX,
            i128::MIN <= (self.x - pivot.x) * sin <= i128::MAX,
            i128::MIN <= (self.y - pivot.y) * cos <= i128::MAX,
            i128::MIN <= pivot.x * denom <= i128::MAX,
            i128::MIN <= pivot.y * denom <= i128::MAX,
            i128::MIN <= (self.x - pivot.x) * cos - (self.y - pivot.y) * sin <= i128::MAX,
            i128::MIN <= (self.x - pivot.x) * sin + (self.y - pivot.y) * cos <= i128::MAX,
            i128::MIN <= (self.x - pivot.x) * cos - (self.y - pivot.y) * sin + pivot.x * denom
                <= i128::MAX,
            i128::MIN <= (self.x - pivot.x) * sin + (self.y - pivot.y) * cos + pivot.y * denom
                <= i128::MAX,
        ensures
            v.x == (self.x - pivot.x) * cos - (self.y - pivot.y) * sin + pivot.x * denom,
            v.y == (self.x - pivot.x) * sin + (self.y - pivot.y) * cos + pivot.y * denom,
    {
        let rx = self.x - pivot.x;
        let ry = self.y - pivot.y;
        Vector {
            x: rx * cos - ry * sin + pivot.x * denom,
            y: rx * sin + ry * cos + pivot.y * denom,
        }
    }

    /// Rotates the vector counterclockwise around the pivot by the
    /// specified angle; the result is the rotated point scaled by the
    /// angle's denominator.
    pub fn rotate_around(&self, pivot: &Vector, angle: &Angle) -> (v: Vector)
        requires
            i128::MIN <= self.x - pivot.x <= i128::MAX,
            i128::MIN <= self.y - pivot.y <= i128::MAX,
            i128::MIN <= (self.x - pivot.x) * angle.cos() <= i128::MAX,
            i128::MIN <= (self.y - pivot.y) * angle.sin() <= i128::MAX,
            i128::MIN <= (self.x - pivot.x) * angle.sin() <= i128::MAX,
            i128::MIN <= (self.y - pivot.y) * angle.cos() <= i128::MAX,
            i128::MIN <= pivot.x * angle.den() <= i128::MAX,
            i128::MIN <= pivot.y * angle.den() <= i128::MAX,
            i128::MIN <= (self.x - pivot.x) * angle.cos() - (self.y - pivot.y) * angle.sin()
                <= i128::MAX,
            i128::MIN <= (self.x - pivot.x) * angle.sin() + (self.y - pivot.y) * angle.cos()
                <= i128::MAX,
            i128::MIN <= (self.x - pivot.x) * angle.cos() - (self.y - pivot.y) * angle.sin()
                + pivot.x * angle.den() <= i128::MAX,
            i128::MIN <= (self.x - pivot.x) * angle.sin() + (self.y - pivot.y) * angle.cos()
                + pivot.y * angle.den() <= i128::MAX,
        ensures
            v.x == (self.x - pivot.x) * angle.cos() - (self.y - pivot.y) * angle.sin()
                + pivot.x * angle.den(),
            v.y == (self.x - pivot.x) * angle.sin() + (self.y - pivot.y) * angle.cos()
                + pivot.y * angle.den(),
    {
        let (sin, cos) = angle.sin_cos();
        let denom = angle.denominator();
        self.rotate_around_with(pivot, sin as i128, cos as i128, denom as i128)
    }

    /// Rotates the vector around the pivot by the specified angle in the
    /// screen-space convention, where the y axis points down, so the sine
    /// enters with the opposite sign; the result is the rotated point
    /// scaled by the angle's denominator.
    pub fn rotate_around_screenspace(&self, pivot: &Vector, angle: &Angle) -> (v: Vector)
        requires
            i128::MIN <= self.x - pivot.x <= i128::MAX,
            i128::MIN <= self.y - pivot.y <= i128::MAX,
            i128::MIN <= (self.x - pivot.x) * angle.cos() <= i128::MAX,
            i128::MIN <= (self.y - pivot.y) * angle.sin() <= i128::MAX,
            i128::MIN <= (self.x - pivot.x) * angle.sin() <= i128::MAX,
            i128::MIN <= (self.y - pivot.y) * angle.cos() <= i128::MAX,
            i128::MIN <= pivot.x * angle.den() <= i128::MAX,
            i128::MIN <= pivot.y * angle.den() <= i128::MAX,
            i128::MIN <= (self.x - pivot.x) * angle.cos() + (self.y - pivot.y) * angle.sin()
                <= i128::MAX,
            i128::MIN <= (self.y - pivot.y) * angle.cos() - (self.x - pivot.x) * angle.sin()
                <= i128::MAX,
            i128::MIN <= (self.x - pivot.x) * angle.cos() + (self.y - pivot.y) * angle.sin()
                + pivot.x * angle.den() <= i128::MAX,
            i128::MIN <= (self.y - pivot.y) * angle.cos() - (self.x - pivot.x) * angle.sin()
                + pivot.y * angle.den() <= i128::MAX,
        ensures
            v.x == (self.x - pivot.x) * angle.cos() + (self.y - pivot.y) * angle.sin()
                + pivot.x * angle.den(),
            v.y == (self.y - pivot.y) * angle.cos() - (self.x - pivot.x) * angle.sin()
                + pivot.y * angle.den(),
    {
        let (sin, cos) = angle.sin_cos();
        let denom = angle.denominator();
        let rx = self.x - pivot.x;
        let ry = self.y - pivot.y;
        Vector {
            x: rx * (cos as i128) + ry * (sin as i128) + pivot.x * (denom as i128),
            y: ry * (cos as i128) - rx * (sin as i128) + pivot.y * (denom as i128),
        }
    }
}

} // verus!
