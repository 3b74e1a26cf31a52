//! Geodesic (Vincenty) distances over ellipsoidal bodies, together with the
//! plain geometric value types the solver works on: coordinates, points, line
//! segments, polylines and collections of polylines.
//!
//! The numeric scalar is a type parameter bounded by `num_traits::Float`, as
//! in the geometry types' callers; every arithmetic and trigonometric step
//! goes through a small trusted shim around the corresponding `num_traits`
//! operation, so the structure of the algorithm — its branches, its iteration
//! bound, its failure propagation — is verified, while the floating-point
//! operations themselves are supplied by the numeric type.

use vstd::prelude::*;

mod float_ops;
mod line;
mod line_string;
mod multi_line_string;
mod vincenty_distance;
mod vincenty_length;

pub use line::Line;
pub use line_string::LineString;
pub use multi_line_string::MultiLineString;
pub use vincenty_distance::{
    FailedToConvergeError, CONVERGENCE_THRESHOLD_RECIPROCAL, FLATTENING_DENOMINATOR,
    FLATTENING_NUMERATOR, MAX_ITERATIONS, MICROMETERS_PER_METER, SEMI_MAJOR_AXIS_METERS,
    SEMI_MINOR_AXIS_MICROMETERS,
};

verus! {

/// A lightweight pair of scalar components; interpreted by the geodesic
/// solver as (longitude, latitude) in degrees.
#[derive(Clone, Copy, Debug, PartialEq)]
pub struct Coordinate<T> {
    pub x: T,
    pub y: T,
}

impl<T: Copy> From<(T, T)> for Coordinate<T> {
    /// Reads a bare pair as a coordinate, `x` first.
    fn from(v: (T, T)) -> (r: Coordinate<T>) {
        Coordinate { x: v.0, y: v.1 }
    }
}

impl<T: Copy> vstd::std_specs::convert::FromSpecImpl<(T, T)> for Coordinate<T> {
    open spec fn obeys_from_spec() -> bool {
        true
    }

    open spec fn from_spec(v: (T, T)) -> Coordinate<T> {
        Coordinate { x: v.0, y: v.1 }
    }
}

/// A coordinate read as a geographic location: `x` is the longitude and `y`
/// the latitude, both in degrees.
#[derive(Clone, Copy, Debug, PartialEq)]
pub struct Point<T>(pub Coordinate<T>);

impl<T: Copy> Point<T> {
    /// Creates a point from a longitude (`x`) and a latitude (`y`).
    pub fn new(x: T, y: T) -> (r: Point<T>)
        ensures
            r.0.x == x,
            r.0.y == y,
    {
        Point(Coordinate { x, y })
    }

    /// The `x` (longitude) component.
    pub fn x(&self) -> (r: T)
        ensures
            r == self.0.x,
    {
        self.0.x
    }

    /// The `y` (latitude) component.
    pub fn y(&self) -> (r: T)
        ensures
            r == self.0.y,
    {
        self.0.y
    }

    /// The `x` (longitude) component, under its geographic name.
    pub fn lng(&self) -> (r: T)
        ensures
            r == self.0.x,
    {
        self.0.x
    }

    /// The `y` (latitude) component, under its geographic name.
    pub fn lat(&self) -> (r: T)
        ensures
            r == self.0.y,
    {
        self.0.y
    }
}

} // verus!
