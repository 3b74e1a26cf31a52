//! The iterative Vincenty inverse-formula solver for the geodesic distance
//! between two points on a reference ellipsoid.
//!
//! The recurrence iterates on the longitude-difference variable until two
//! successive iterates differ by less than a fixed threshold, or a fixed
//! iteration bound is exceeded, in which case a typed convergence failure is
//! returned — never a partial distance, and never a silent sentinel value
//! such as a NaN or an infinity.
//!
//! Degenerate inputs are handled before and inside the recurrence:
//! - coincident points (identical coordinates) yield a distance of exactly
//!   zero without entering the iteration;
//! - a zero angular separation reached inside the iteration yields zero when
//!   the points are numerically coincident, and a convergence failure when
//!   they sit antipodally on the equator — the antipodal policy of this
//!   solver is to fail deterministically rather than to stabilise;
//! - near-antipodal points make the recurrence oscillate, exhaust the
//!   iteration bound, and so report the convergence failure.

use vstd::prelude::*;

use crate::float_ops::{
    t_abs, t_add, t_atan, t_atan2, t_cos, t_div, t_eq, t_from_u64, t_lt, t_mul, t_one, t_sin,
    t_sqrt, t_sub, t_tan, t_to_radians, t_zero,
};
use crate::Point;

verus! {

/// The reference ellipsoid's semi-major (equatorial) axis, in meters.
pub const SEMI_MAJOR_AXIS_METERS: u64 = 6378137;

/// The reference ellipsoid's semi-minor (polar) axis is 6356752.314245
/// meters; scaling by [`MICROMETERS_PER_METER`] keeps the constant integral.
pub const SEMI_MINOR_AXIS_MICROMETERS: u64 = 6356752314245;

/// The scale that turns [`SEMI_MINOR_AXIS_MICROMETERS`] back into meters.
pub const MICROMETERS_PER_METER: u64 = 1000000;

/// The reference ellipsoid's flattening is the ratio
/// [`FLATTENING_NUMERATOR`] / [`FLATTENING_DENOMINATOR`], that is
/// 1 / 298.257223563.
pub const FLATTENING_NUMERATOR: u64 = 1000000000;

/// See [`FLATTENING_NUMERATOR`].
pub const FLATTENING_DENOMINATOR: u64 = 298257223563;

/// The recurrence counts as converged when two successive iterates of the
/// longitude difference differ by less than the reciprocal of this constant,
/// that is by less than 10^-12.
pub const CONVERGENCE_THRESHOLD_RECIPROCAL: u64 = 1000000000000;

/// The recurrence gives up after this many iterations.
pub const MAX_ITERATIONS: u32 = 200;

/// The iterative recurrence did not reach its convergence threshold within
/// the iteration bound.
///
/// This is the only error the solver can produce.  It deliberately carries no
/// payload — no partial distance and no iteration count — so that an
/// unconverged computation can never be mistaken for a result.
#[derive(Clone, Copy, Debug, PartialEq, Eq, Structural)]
pub struct FailedToConvergeError;

/// The scalar constants of the recurrence, produced once per call from the
/// integral constants above by the scalar type's own conversions.
struct SolverConstants<T> {
    two: T,
    three: T,
    four: T,
    six: T,
    sixteen: T,
    c47: T,
    c74: T,
    c128: T,
    c175: T,
    c256: T,
    c320: T,
    c768: T,
    c1024: T,
    c4096: T,
    c16384: T,
    /// Semi-major axis, in meters.
    semi_major: T,
    /// Semi-minor axis, in meters.
    semi_minor: T,
    /// Flattening of the ellipsoid.
    flattening: T,
    /// Convergence threshold on successive longitude-difference iterates.
    threshold: T,
}

/// Builds the scalar constants, or `None` where the scalar type cannot
/// represent one of the integral constants.
fn solver_constants<T: num_traits::Float + num_traits::FromPrimitive>() -> Option<
    SolverConstants<T>,
> {
    let two: T = t_from_u64(2)?;
    let three: T = t_from_u64(3)?;
    let four: T = t_from_u64(4)?;
    let six: T = t_from_u64(6)?;
    let sixteen: T = t_from_u64(16)?;
    let c47: T = t_from_u64(47)?;
    let c74: T = t_from_u64(74)?;
    let c128: T = t_from_u64(128)?;
    let c175: T = t_from_u64(175)?;
    let c256: T = t_from_u64(256)?;
    let c320: T = t_from_u64(320)?;
    let c768: T = t_from_u64(768)?;
    let c1024: T = t_from_u64(1024)?;
    let c4096: T = t_from_u64(4096)?;
    let c16384: T = t_from_u64(16384)?;
    let semi_major: T = t_from_u64(SEMI_MAJOR_AXIS_METERS)?;
    let minor_scaled: T = t_from_u64(SEMI_MINOR_AXIS_MICROMETERS)?;
    let minor_scale: T = t_from_u64(MICROMETERS_PER_METER)?;
    let semi_minor: T = t_div(minor_scaled, minor_scale);
    let flat_num: T = t_from_u64(FLATTENING_NUMERATOR)?;
    let flat_den: T = t_from_u64(FLATTENING_DENOMINATOR)?;
    let flattening: T = t_div(flat_num, flat_den);
    let threshold_recip: T = t_from_u64(CONVERGENCE_THRESHOLD_RECIPROCAL)?;
    let threshold: T = t_div(t_one(), threshold_recip);
    Some(
        SolverConstants {
            two,
            three,
            four,
            six,
            sixteen,
            c47,
            c74,
            c128,
            c175,
            c256,
            c320,
            c768,
            c1024,
            c4096,
            c16384,
            semi_major,
            semi_minor,
            flattening,
            threshold,
        },
    )
}

impl<T: num_traits::Float + num_traits::FromPrimitive> Point<T> {
    /// The ellipsoidal surface distance between `self` and `rhs`, in meters,
    /// or the typed convergence failure where the recurrence does not settle
    /// within its iteration bound.
    ///
    /// Pure in its two inputs and the fixed ellipsoid constants; symmetric in
    /// its arguments; exactly zero for coincident inputs; nonnegative and
    /// never NaN whenever it converges.  A scalar type that cannot represent
    /// the solver's constants cannot converge and reports the failure.
    pub fn vincenty_distance(&self, rhs: &Point<T>) -> Result<T, FailedToConvergeError> {
        let zero: T = t_zero();
        // Coincident points never enter the iteration: the recurrence is
        // unstable at zero separation, and their distance is exactly zero.
        if t_eq(self.0.x, rhs.0.x) && t_eq(self.0.y, rhs.0.y) {
            return Ok(zero);
        }
        let k: SolverConstants<T> = match solver_constants::<T>() {
            Some(k) => k,
            None => {
                return Err(FailedToConvergeError);
            },
        };
        let one: T = t_one();
        // Longitudinal difference, and reduced latitudes of the two points.
        let l: T = t_to_radians(t_sub(rhs.0.x, self.0.x));
        let one_minus_f: T = t_sub(one, k.flattening);
        let u1: T = t_atan(t_mul(one_minus_f, t_tan(t_to_radians(self.0.y))));
        let u2: T = t_atan(t_mul(one_minus_f, t_tan(t_to_radians(rhs.0.y))));
        let sin_u1: T = t_sin(u1);
        let cos_u1: T = t_cos(u1);
        let sin_u2: T = t_sin(u2);
        let cos_u2: T = t_cos(u2);

        let mut lambda: T = l;
        let mut sin_sigma: T = zero;
        let mut cos_sigma: T = zero;
        let mut sigma: T = zero;
        let mut cos_sq_alpha: T = zero;
        let mut cos2_sigma_m: T = zero;
        let mut converged = false;
        let mut iter: u32 = 0;
        while iter < MAX_ITERATIONS && !converged
            invariant
                iter <= MAX_ITERATIONS,
            decreases MAX_ITERATIONS - iter,
        {
            let sin_lambda: T = t_sin(lambda);
            let cos_lambda: T = t_cos(lambda);
            let across: T = t_mul(cos_u2, sin_lambda);
            let along: T = t_sub(t_mul(cos_u1, sin_u2), t_mul(t_mul(sin_u1, cos_u2), cos_lambda));
            sin_sigma = t_sqrt(t_add(t_mul(across, across), t_mul(along, along)));
            cos_sigma = t_add(t_mul(sin_u1, sin_u2), t_mul(t_mul(cos_u1, cos_u2), cos_lambda));
            if t_eq(sin_sigma, zero) {
                // Zero angular separation at the current iterate.  With a
                // positive cosine the points are numerically coincident and
                // their distance is zero; with a nonpositive cosine they sit
                // antipodally on the equator, where this solver fails rather
                // than report a fabricated distance.
                if t_lt(zero, cos_sigma) {
                    return Ok(zero);
                }
                return Err(FailedToConvergeError);
            }
            sigma = t_atan2(sin_sigma, cos_sigma);
            let sin_alpha: T = t_div(t_mul(t_mul(cos_u1, cos_u2), sin_lambda), sin_sigma);
            cos_sq_alpha = t_sub(one, t_mul(sin_alpha, sin_alpha));
            if t_eq(cos_sq_alpha, zero) {
                // Equatorial line: the azimuth is along the equator and the
                // midpoint correction term degenerates to zero.
                cos2_sigma_m = zero;
            } else {
                cos2_sigma_m = t_sub(
                    cos_sigma,
                    t_div(t_mul(t_mul(k.two, sin_u1), sin_u2), cos_sq_alpha),
                );
            }
            let c: T = t_mul(
                t_mul(t_div(k.flattening, k.sixteen), cos_sq_alpha),
                t_add(k.four, t_mul(k.flattening, t_sub(k.four, t_mul(k.three, cos_sq_alpha)))),
            );
            let cos2_sq: T = t_mul(cos2_sigma_m, cos2_sigma_m);
            let midpoint_term: T = t_add(
                cos2_sigma_m,
                t_mul(t_mul(c, cos_sigma), t_sub(t_mul(k.two, cos2_sq), one)),
            );
            let lambda_next: T = t_add(
                l,
                t_mul(
                    t_mul(t_mul(t_sub(one, c), k.flattening), sin_alpha),
                    t_add(sigma, t_mul(t_mul(c, sin_sigma), midpoint_term)),
                ),
            );
            if t_lt(t_abs(t_sub(lambda_next, lambda)), k.threshold) {
                converged = true;
            }
            lambda = lambda_next;
            iter = iter + 1;
        }
        if !converged {
            return Err(FailedToConvergeError);
        }
        // Closing formulas: from the converged angular separation to the
        // surface distance, in meters.
        let a: T = k.semi_major;
        let b: T = k.semi_minor;
        let u_sq: T = t_div(t_mul(cos_sq_alpha, t_sub(t_mul(a, a), t_mul(b, b))), t_mul(b, b));
        let big_a: T = t_add(
            one,
            t_mul(
                t_div(u_sq, k.c16384),
                t_add(
                    k.c4096,
                    t_mul(u_sq, t_sub(t_mul(u_sq, t_sub(k.c320, t_mul(k.c175, u_sq))), k.c768)),
                ),
            ),
        );
        let big_b: T = t_mul(
            t_div(u_sq, k.c1024),
            t_add(
                k.c256,
                t_mul(u_sq, t_sub(t_mul(u_sq, t_sub(k.c74, t_mul(k.c47, u_sq))), k.c128)),
            ),
        );
        let cos2_sq: T = t_mul(cos2_sigma_m, cos2_sigma_m);
        let sin_sq: T = t_mul(sin_sigma, sin_sigma);
        let flat_term: T = t_mul(cos_sigma, t_sub(t_mul(k.two, cos2_sq), one));
        let steep_term: T = t_mul(
            t_mul(t_div(big_b, k.six), cos2_sigma_m),
            t_mul(t_sub(t_mul(k.four, sin_sq), k.three), t_sub(t_mul(k.four, cos2_sq), k.three)),
        );
        let delta_sigma: T = t_mul(
            t_mul(big_b, sin_sigma),
            t_add(cos2_sigma_m, t_mul(t_div(big_b, k.four), t_sub(flat_term, steep_term))),
        );
        let s: T = t_mul(t_mul(b, big_a), t_sub(sigma, delta_sigma));
        // A converged distance is a finite nonnegative scalar; anything else
        // is numerical degeneration and is reported as the typed failure,
        // never returned as a sentinel value.
        if t_eq(s, s) && !t_lt(s, zero) {
            Ok(s)
        } else {
            Err(FailedToConvergeError)
        }
    }
}

} // verus!
