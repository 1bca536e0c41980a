//! The design-time solver's decision logic.
//!
//! The design moment is when the Sun stood 88 degrees before its birth
//! longitude.  The solver is a capped Newton-style iteration: evaluate the
//! Sun at the estimate, take the shortest angular difference to the target,
//! stop when it is below tolerance, else advance by difference over the mean
//! solar rate.  The ephemeris evaluation is the caller's; each step's
//! decision is here, exact over scaled integers.

use vstd::prelude::*;
use crate::angle::{delta_mas, norm_mas, normalize, signed_delta, CIRCLE_MAS};

verus! {

/// 88 degrees in milliarcseconds: how far the design Sun trails the birth
/// Sun.
pub const DESIGN_OFFSET_MAS: i64 = 316_800_000;

/// Solver tolerance: a ten-thousandth of a degree.
pub const TOLERANCE_MAS: i64 = 360;

/// The mean solar rate, 0.9856 degrees per day, in milliarcseconds per day.
pub const SOLAR_RATE_MAS_PER_DAY: i64 = 3_548_160;

/// The initial guess steps back 89.3 days (88 degrees at the mean rate), in
/// milliseconds.
pub const GUESS_BACK_MS: i64 = 7_715_520_000;

/// The solver runs at most this many iterations; the cap is the termination
/// guarantee, and the estimate after the cap is accepted silently.
pub const MAX_SOLVER_STEPS: u32 = 50;

/// The time advance for an angular shortfall: difference over the mean solar
/// rate, in milliseconds, rounded toward zero.
pub open spec fn step_ms(delta: int) -> int {
    if delta >= 0 {
        delta * 86_400_000 / (SOLAR_RATE_MAS_PER_DAY as int)
    } else {
        -((-delta) * 86_400_000 / (SOLAR_RATE_MAS_PER_DAY as int))
    }
}

/// The design target longitude: 88 degrees before the birth Sun, normalized.
pub fn design_target(birth_sun_lng: i64) -> (r: i64)
    requires
        0 <= birth_sun_lng < CIRCLE_MAS,
    ensures
        0 <= r < CIRCLE_MAS,
        r == norm_mas(birth_sun_lng as int - DESIGN_OFFSET_MAS as int),
{
    normalize(birth_sun_lng - DESIGN_OFFSET_MAS)
}

/// The initial estimate: 89.3 days before birth.
pub fn design_guess(birth_t: i64) -> (r: i64)
    requires
        0 <= birth_t <= 1_000_000_000_000_000,
    ensures
        r == birth_t - GUESS_BACK_MS,
{
    birth_t - GUESS_BACK_MS
}

/// One solver decision: given the target longitude and the Sun's longitude
/// at the current estimate, either declare convergence (the shortest way
/// between them is under tolerance) or say how far to move the estimate.
pub fn solver_step(target: i64, current_lng: i64) -> (r: (bool, i64))
    requires
        0 <= target < CIRCLE_MAS,
        0 <= current_lng < CIRCLE_MAS,
    ensures
        r.0 == (-(TOLERANCE_MAS as int) < delta_mas(target as int, current_lng as int)
            < TOLERANCE_MAS as int),
        r.1 == step_ms(delta_mas(target as int, current_lng as int)),
        -16_000_000_000 <= r.1 <= 16_000_000_000,
{
    let d = signed_delta(target, current_lng);
    let done = -TOLERANCE_MAS < d && d < TOLERANCE_MAS;
    let dt: i64 = if d >= 0 {
        (d * 86_400_000) / SOLAR_RATE_MAS_PER_DAY
    } else {
        -(((-d) * 86_400_000) / SOLAR_RATE_MAS_PER_DAY)
    };
    (done, dt)
}

/// One advance of the solver's estimate: unchanged on convergence, moved by
/// the step otherwise.
pub fn solver_advance(t: i64, target: i64, current_lng: i64) -> (r: (bool, i64))
    requires
        0 <= target < CIRCLE_MAS,
        0 <= current_lng < CIRCLE_MAS,
        -1_000_000_000_000_000 <= t <= 1_000_000_000_000_000,
    ensures
        r.0 == (-(TOLERANCE_MAS as int) < delta_mas(target as int, current_lng as int)
            < TOLERANCE_MAS as int),
        r.0 ==> r.1 == t,
        !r.0 ==> r.1 == t + step_ms(delta_mas(target as int, current_lng as int)),
{
    let (done, dt) = solver_step(target, current_lng);
    if done {
        (true, t)
    } else {
        (false, t + dt)
    }
}

} // verus!
