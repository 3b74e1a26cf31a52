//! An ordered collection of paths.

use vstd::prelude::*;

use crate::line_string::LineString;

verus! {

/// An ordered collection of [`LineString`]s.
#[derive(Clone, Debug, PartialEq)]
pub struct MultiLineString<T>(pub Vec<LineString<T>>);

impl<T: Copy> MultiLineString<T> {
    /// The number of paths in the collection.
    pub fn num_line_strings(&self) -> (r: usize)
        ensures
            r == self.0@.len(),
    {
        self.0.len()
    }
}

} // verus!
