//! Ecliptic angles in integer milliarcseconds.
//!
//! One degree is 3 600 000 milliarcseconds, so the full circle is
//! 1 296 000 000.  All longitudes the library works with live in
//! `[0, CIRCLE_MAS)`; `normalize` brings any angle there.

use vstd::prelude::*;
use vstd::arithmetic::div_mod::{
    lemma_mod_add_multiples_vanish, lemma_mod_bound,
    lemma_mod_sub_multiples_vanish, lemma_small_mod,
};

verus! {

/// Milliarcseconds in one degree.
pub const MAS_PER_DEG: i64 = 3_600_000;

/// Milliarcseconds in the full circle of 360 degrees.
pub const CIRCLE_MAS: i64 = 1_296_000_000;

/// Milliarcseconds in half the circle (180 degrees).
pub const HALF_CIRCLE_MAS: i64 = 648_000_000;

/// The angle `x` reduced into `[0, CIRCLE_MAS)`: Euclidean remainder mod the
/// full circle.
pub open spec fn norm_mas(x: int) -> int {
    x % (CIRCLE_MAS as int)
}

/// Normalizes an angle in milliarcseconds into `[0, CIRCLE_MAS)`.
pub fn normalize(x: i64) -> (r: i64)
    ensures
        0 <= r < CIRCLE_MAS,
        r as int == norm_mas(x as int),
{
    let mut v: i64 = x;
    while v < 0
        invariant
            v as int % (CIRCLE_MAS as int) == x as int % (CIRCLE_MAS as int),
            v <= i64::MAX - CIRCLE_MAS || v == x,
        decreases CIRCLE_MAS as int - v as int,
    {
        proof {
            lemma_mod_add_multiples_vanish(v as int, CIRCLE_MAS as int);
        }
        v = v + CIRCLE_MAS;
    }
    while v >= CIRCLE_MAS
        invariant
            v >= 0,
            v as int % (CIRCLE_MAS as int) == x as int % (CIRCLE_MAS as int),
        decreases v as int,
    {
        proof {
            lemma_mod_sub_multiples_vanish(v as int, CIRCLE_MAS as int);
        }
        v = v - CIRCLE_MAS;
    }
    proof {
        lemma_small_mod(v as nat, CIRCLE_MAS as nat);
    }
    v
}

/// Normalization lands in `[0, 360)` degrees and is periodic: shifting the
/// argument by a full circle does not change the result.
pub proof fn lemma_normalize_periodic(x: int)
    ensures
        0 <= norm_mas(x) < CIRCLE_MAS,
        norm_mas(x + CIRCLE_MAS as int) == norm_mas(x),
        norm_mas(x - CIRCLE_MAS as int) == norm_mas(x),
{
    lemma_mod_bound(x, CIRCLE_MAS as int);
    lemma_mod_add_multiples_vanish(x, CIRCLE_MAS as int);
    lemma_mod_sub_multiples_vanish(x, CIRCLE_MAS as int);
}

/// An angle already in range normalizes to itself.
pub proof fn lemma_normalize_in_range(x: int)
    requires
        0 <= x < CIRCLE_MAS,
    ensures
        norm_mas(x) == x,
{
    lemma_small_mod(x as nat, CIRCLE_MAS as nat);
}

/// The angle 180 degrees away, normalized.  Earth stands opposite the Sun and
/// the South Node opposite the North Node.
pub fn opposite(lng: i64) -> (r: i64)
    requires
        0 <= lng < CIRCLE_MAS,
    ensures
        0 <= r < CIRCLE_MAS,
        r as int == norm_mas(lng + HALF_CIRCLE_MAS as int),
{
    if lng >= HALF_CIRCLE_MAS {
        proof {
            lemma_mod_sub_multiples_vanish(
                lng as int + HALF_CIRCLE_MAS as int - CIRCLE_MAS as int,
                CIRCLE_MAS as int,
            );
            lemma_small_mod(
                (lng as int + HALF_CIRCLE_MAS as int - CIRCLE_MAS as int) as nat,
                CIRCLE_MAS as nat,
            );
        }
        lng - HALF_CIRCLE_MAS
    } else {
        proof {
            lemma_small_mod((lng as int + HALF_CIRCLE_MAS as int) as nat, CIRCLE_MAS as nat);
        }
        lng + HALF_CIRCLE_MAS
    }
}

/// The signed shortest way around the circle from `from` to `to`: the raw
/// difference pulled into `[-180, 180]` degrees by one full turn if needed.
pub open spec fn delta_mas(to: int, from: int) -> int {
    let raw = to - from;
    if raw > HALF_CIRCLE_MAS as int {
        raw - CIRCLE_MAS as int
    } else if raw < -(HALF_CIRCLE_MAS as int) {
        raw + CIRCLE_MAS as int
    } else {
        raw
    }
}

/// The signed shortest way around the circle from `from` to `to`, in
/// milliarcseconds: congruent to `to - from` mod the circle and within
/// `[-180, 180]` degrees.
pub fn signed_delta(to: i64, from: i64) -> (d: i64)
    requires
        0 <= to < CIRCLE_MAS,
        0 <= from < CIRCLE_MAS,
    ensures
        d == delta_mas(to as int, from as int),
        -HALF_CIRCLE_MAS <= d <= HALF_CIRCLE_MAS,
        norm_mas(d as int) == norm_mas(to as int - from as int),
{
    let raw = to - from;
    if raw > HALF_CIRCLE_MAS {
        proof {
            lemma_mod_sub_multiples_vanish(raw as int - CIRCLE_MAS as int, CIRCLE_MAS as int);
        }
        raw - CIRCLE_MAS
    } else if raw < -HALF_CIRCLE_MAS {
        proof {
            lemma_mod_add_multiples_vanish(raw as int, CIRCLE_MAS as int);
        }
        raw + CIRCLE_MAS
    } else {
        raw
    }
}

} // verus!
