//! An ordered sequence of coordinates, representing a path between
//! locations.

use vstd::prelude::*;

use crate::line::Line;
use crate::Coordinate;

verus! {

/// An ordered collection of [`Coordinate`]s, representing a path between
/// locations.
///
/// A path of `n >= 2` coordinates decomposes into exactly `n - 1` consecutive
/// line segments; a path of fewer than 2 coordinates decomposes into none.
#[derive(Clone, Debug, PartialEq)]
pub struct LineString<T>(pub Vec<Coordinate<T>>);

impl<T: Copy> From<Vec<Coordinate<T>>> for LineString<T> {
    /// Reads a vector of coordinates as a path, in order.
    fn from(v: Vec<Coordinate<T>>) -> (r: LineString<T>) {
        LineString(v)
    }
}

impl<T: Copy> vstd::std_specs::convert::FromSpecImpl<Vec<Coordinate<T>>> for LineString<T> {
    open spec fn obeys_from_spec() -> bool {
        true
    }

    open spec fn from_spec(v: Vec<Coordinate<T>>) -> LineString<T> {
        LineString(v)
    }
}

impl<T: Copy> LineString<T> {
    /// The consecutive-pair segments of the path, in order: one [`Line`] for
    /// each adjacent pair of coordinates.
    ///
    /// Every index is checked by construction, so a path of fewer than two
    /// coordinates yields an empty sequence rather than being undefined.
    pub fn lines(&self) -> (r: Vec<Line<T>>)
        ensures
            self.0@.len() < 2 ==> r@.len() == 0,
            self.0@.len() >= 2 ==> r@.len() == self.0@.len() - 1,
            forall|i: int|
                0 <= i < r@.len() ==> r@[i].start == self.0@[i] && r@[i].end == self.0@[i + 1],
    {
        let mut segments: Vec<Line<T>> = Vec::new();
        if self.0.len() < 2 {
            return segments;
        }
        let n = self.0.len();
        let mut i: usize = 1;
        while i < n
            invariant
                1 <= i <= n,
                n == self.0@.len(),
                segments@.len() == i - 1,
                forall|j: int|
                    0 <= j < segments@.len() ==> segments@[j].start == self.0@[j]
                        && segments@[j].end == self.0@[j + 1],
            decreases n - i,
        {
            let seg = Line::new(self.0[i - 1], self.0[i]);
            segments.push(seg);
            i = i + 1;
        }
        segments
    }

    /// The number of coordinates in the path.
    pub fn num_coords(&self) -> (r: usize)
        ensures
            r == self.0@.len(),
    {
        self.0.len()
    }
}

} // verus!
