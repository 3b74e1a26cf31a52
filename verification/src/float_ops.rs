//! Trusted shims around the scalar operations of `num_traits`.
//!
//! The geodesic solver is generic over its scalar type `T`, bounded by
//! `num_traits::Float` exactly as its callers bound theirs.  Verus cannot
//! reason about the behaviour of an outside trait's implementation, so each
//! arithmetic, comparison and trigonometric step is funnelled through one of
//! the shims below: a thin `external_body` function whose body makes exactly
//! one call into the outside trait.  Nothing is promised of the values these
//! calls return — which operations run, in which order, and how their
//! failures propagate is what the verified code establishes.

use vstd::prelude::*;

verus! {

/// Relies on `num_traits::Zero::zero` (a supertrait of `Float`): the additive
/// identity of `T`.
#[verifier::external_body]
pub(crate) fn t_zero<T: num_traits::Float>() -> T {
    T::zero()
}

/// Relies on `num_traits::One::one` (a supertrait of `Float`): the
/// multiplicative identity of `T`.
#[verifier::external_body]
pub(crate) fn t_one<T: num_traits::Float>() -> T {
    T::one()
}

/// Relies on `num_traits::FromPrimitive::from_u64`: the value of `T` nearest
/// to the given integer, or `None` where `T` cannot represent it.
#[verifier::external_body]
pub(crate) fn t_from_u64<T: num_traits::FromPrimitive>(n: u64) -> Option<T> {
    T::from_u64(n)
}

/// Relies on `core::ops::Add::add` through the `NumOps` supertrait of
/// `Float`.
#[verifier::external_body]
pub(crate) fn t_add<T: num_traits::Float>(a: T, b: T) -> T {
    a + b
}

/// Relies on `core::ops::Sub::sub` through the `NumOps` supertrait of
/// `Float`.
#[verifier::external_body]
pub(crate) fn t_sub<T: num_traits::Float>(a: T, b: T) -> T {
    a - b
}

/// Relies on `core::ops::Mul::mul` through the `NumOps` supertrait of
/// `Float`.
#[verifier::external_body]
pub(crate) fn t_mul<T: num_traits::Float>(a: T, b: T) -> T {
    a * b
}

/// Relies on `core::ops::Div::div` through the `NumOps` supertrait of
/// `Float`.
#[verifier::external_body]
pub(crate) fn t_div<T: num_traits::Float>(a: T, b: T) -> T {
    a / b
}

/// Relies on `core::cmp::PartialOrd::lt` through the `PartialOrd` supertrait
/// of `Float`.
#[verifier::external_body]
pub(crate) fn t_lt<T: num_traits::Float>(a: T, b: T) -> bool {
    a < b
}

/// Relies on `core::cmp::PartialEq::eq` through the `PartialEq` supertrait of
/// `Float`.
#[verifier::external_body]
pub(crate) fn t_eq<T: num_traits::Float>(a: T, b: T) -> bool {
    a == b
}

/// Relies on `num_traits::Float::to_radians`: the angle converted from
/// degrees to radians.
#[verifier::external_body]
pub(crate) fn t_to_radians<T: num_traits::Float>(a: T) -> T {
    a.to_radians()
}

/// Relies on `num_traits::Float::sin`.
#[verifier::external_body]
pub(crate) fn t_sin<T: num_traits::Float>(a: T) -> T {
    a.sin()
}

/// Relies on `num_traits::Float::cos`.
#[verifier::external_body]
pub(crate) fn t_cos<T: num_traits::Float>(a: T) -> T {
    a.cos()
}

/// Relies on `num_traits::Float::tan`.
#[verifier::external_body]
pub(crate) fn t_tan<T: num_traits::Float>(a: T) -> T {
    a.tan()
}

/// Relies on `num_traits::Float::atan`.
#[verifier::external_body]
pub(crate) fn t_atan<T: num_traits::Float>(a: T) -> T {
    a.atan()
}

/// Relies on `num_traits::Float::atan2`: the four-quadrant arctangent of
/// `a / b`.
#[verifier::external_body]
pub(crate) fn t_atan2<T: num_traits::Float>(a: T, b: T) -> T {
    a.atan2(b)
}

/// Relies on `num_traits::Float::sqrt`.
#[verifier::external_body]
pub(crate) fn t_sqrt<T: num_traits::Float>(a: T) -> T {
    a.sqrt()
}

/// Relies on `num_traits::Float::abs`.
#[verifier::external_body]
pub(crate) fn t_abs<T: num_traits::Float>(a: T) -> T {
    a.abs()
}

} // verus!
