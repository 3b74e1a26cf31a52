//! Aggregation of per-segment geodesic distances into path lengths.
//!
//! A path is decomposed into its consecutive-pair segments, the solver runs
//! on each segment's endpoints in order, and the results fold into a running
//! total starting at zero.  The first segment whose solver call fails aborts
//! the whole computation and propagates the failure — no partial sum is ever
//! returned.  A path of fewer than two points has no segments, and its length
//! is the empty sum: zero, never a failure.

use vstd::prelude::*;

use crate::float_ops::{t_add, t_zero};
use crate::line::Line;
use crate::line_string::LineString;
use crate::multi_line_string::MultiLineString;
use crate::vincenty_distance::FailedToConvergeError;

verus! {

impl<T: num_traits::Float + num_traits::FromPrimitive> Line<T> {
    /// The geodesic length of the single segment, in meters: the solver's
    /// distance between its two endpoints.  The units of the returned value
    /// is meters.
    pub fn vincenty_length(&self) -> Result<T, FailedToConvergeError> {
        let (start, end) = self.points();
        start.vincenty_distance(&end)
    }
}

impl<T: num_traits::Float + num_traits::FromPrimitive> LineString<T> {
    /// Sums the solver's distances over the path's segments in order,
    /// aborting on the first segment that fails to converge.  A path of
    /// fewer than two points has zero segments and so never fails.
    pub fn vincenty_length(&self) -> (r: Result<T, FailedToConvergeError>)
        ensures
            self.0@.len() < 2 ==> r is Ok,
    {
        let segments = self.lines();
        let mut total: T = t_zero();
        let n = segments.len();
        let mut i: usize = 0;
        while i < n
            invariant
                n == segments@.len(),
                i <= n,
                self.0@.len() < 2 ==> n == 0,
            decreases n - i,
        {
            match segments[i].vincenty_length() {
                Ok(d) => {
                    total = t_add(total, d);
                },
                Err(e) => {
                    return Err(e);
                },
            }
            i = i + 1;
        }
        Ok(total)
    }
}

impl<T: num_traits::Float + num_traits::FromPrimitive> MultiLineString<T> {
    /// Sums the lengths of the constituent paths in order, with the same
    /// abort-on-first-failure policy, failure being detected in path order
    /// and then in segment order within a path.  A collection whose paths
    /// all have fewer than two points never fails.
    pub fn vincenty_length(&self) -> (r: Result<T, FailedToConvergeError>)
        ensures
            (forall|i: int| 0 <= i < self.0@.len() ==> self.0@[i].0@.len() < 2) ==> r is Ok,
    {
        let mut total: T = t_zero();
        let n = self.0.len();
        let mut i: usize = 0;
        while i < n
            invariant
                n == self.0@.len(),
                i <= n,
            decreases n - i,
        {
            match self.0[i].vincenty_length() {
                Ok(d) => {
                    total = t_add(total, d);
                },
                Err(e) => {
                    return Err(e);
                },
            }
            i = i + 1;
        }
        Ok(total)
    }
}

} // verus!
