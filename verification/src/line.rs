//! A directed line segment between two coordinates.

use vstd::prelude::*;

use crate::float_ops::{t_div, t_mul, t_sub};
use crate::{Coordinate, Point};

verus! {

/// A line segment made up of exactly two [`Point`]s.
#[derive(Clone, Copy, Debug, PartialEq)]
pub struct Line<T> {
    pub start: Coordinate<T>,
    pub end: Coordinate<T>,
}

impl<T: Copy> Line<T> {
    /// Creates a new line segment from its two endpoints, start first.
    pub fn new(start: Coordinate<T>, end: Coordinate<T>) -> (r: Line<T>)
        ensures
            r.start == start,
            r.end == end,
    {
        Line { start, end }
    }

    /// The start endpoint, viewed as a [`Point`].
    pub fn start_point(&self) -> (r: Point<T>)
        ensures
            r.0 == self.start,
    {
        Point(self.start)
    }

    /// The end endpoint, viewed as a [`Point`].
    pub fn end_point(&self) -> (r: Point<T>)
        ensures
            r.0 == self.end,
    {
        Point(self.end)
    }

    /// Both endpoints, viewed as [`Point`]s, start first.
    pub fn points(&self) -> (r: (Point<T>, Point<T>))
        ensures
            r.0.0 == self.start,
            r.1.0 == self.end,
    {
        (self.start_point(), self.end_point())
    }
}

impl<T: Copy> From<[(T, T); 2]> for Line<T> {
    /// Reads a pair of bare coordinate pairs as a segment, start first.
    fn from(coord: [(T, T); 2]) -> (r: Line<T>) {
        Line::new(
            Coordinate { x: coord[0].0, y: coord[0].1 },
            Coordinate { x: coord[1].0, y: coord[1].1 },
        )
    }
}

impl<T: Copy> vstd::std_specs::convert::FromSpecImpl<[(T, T); 2]> for Line<T> {
    open spec fn obeys_from_spec() -> bool {
        true
    }

    open spec fn from_spec(coord: [(T, T); 2]) -> Line<T> {
        Line {
            start: Coordinate { x: coord[0].0, y: coord[0].1 },
            end: Coordinate { x: coord[1].0, y: coord[1].1 },
        }
    }
}

impl<T: num_traits::Float> Line<T> {
    /// The difference in `x` components, `end.x - start.x`, computed by the
    /// scalar type's subtraction.
    pub fn dx(&self) -> T {
        t_sub(self.end.x, self.start.x)
    }

    /// The difference in `y` components, `end.y - start.y`, computed by the
    /// scalar type's subtraction.
    pub fn dy(&self) -> T {
        t_sub(self.end.y, self.start.y)
    }

    /// The slope `dy / dx`, computed by the scalar type's division; equal for
    /// a segment and its reversal.
    pub fn slope(&self) -> T {
        t_div(self.dy(), self.dx())
    }

    /// The determinant `start.x * end.y - start.y * end.x`; negated for a
    /// segment and its reversal.
    pub fn determinant(&self) -> T {
        t_sub(t_mul(self.start.x, self.end.y), t_mul(self.start.y, self.end.x))
    }
}

} // verus!
