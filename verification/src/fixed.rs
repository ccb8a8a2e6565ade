//! Fixed-point scalar arithmetic.
//!
//! Coordinates, angles, ratios and weights are all carried as integers
//! scaled by [`FP_ONE`]: the value `v` stands for the real number
//! `v / FP_ONE`. Angles are measured in fixed-point degrees, so a full
//! turn is [`DEG_FULL`].

use vstd::arithmetic::div_mod::{lemma_div_is_ordered, lemma_mod_multiples_vanish};
use vstd::prelude::*;

verus! {

/// The fixed-point unit: representations carry 32 fractional bits.
pub const FP_ONE: i64 = 4294967296;

/// A full turn (360 degrees) in fixed-point degrees.
pub const DEG_FULL: i64 = 360 * 4294967296;

/// A multiple of `DEG_FULL` that is at least `2^63`, used to shift any
/// `i64` angle into non-negative territory before reducing it modulo a
/// full turn.
pub const WRAP_BASE: i128 = 5965233 * (360 * 4294967296);

/// Linear interpolation from `a` toward `b` by the fixed-point fraction
/// `t`, with the fractional step truncated toward zero.
pub open spec fn lerp_spec(a: int, b: int, t: int) -> int {
    if b >= a {
        a + (b - a) * t / (FP_ONE as int)
    } else {
        a - (a - b) * t / (FP_ONE as int)
    }
}

/// Fixed-point product of two fractions in `[0, 1]`, truncated back to
/// the fixed-point scale.
pub fn mul_frac(a: u64, b: u64) -> (r: u64)
    requires
        a <= FP_ONE,
        b <= FP_ONE,
    ensures
        r == a as int * b as int / (FP_ONE as int),
        r <= a,
        r <= b,
{
    proof {
        assert(a * b <= a * FP_ONE && a * b <= b * FP_ONE && a * b >= 0) by (nonlinear_arith)
            requires
                0 <= a <= FP_ONE,
                0 <= b <= FP_ONE,
        ;
        lemma_div_is_ordered(a as int * b as int, a as int * FP_ONE as int, FP_ONE as int);
        lemma_div_is_ordered(a as int * b as int, b as int * FP_ONE as int, FP_ONE as int);
    }
    ((a as u128) * (b as u128) / (FP_ONE as u128)) as u64
}

/// Reduces an angle in fixed-point degrees to the range `[0, DEG_FULL)`.
pub fn wrap_degrees(a: i64) -> (r: i64)
    ensures
        0 <= r < DEG_FULL,
        r == a as int % (DEG_FULL as int),
{
    let shifted: i128 = (a as i128) + WRAP_BASE;
    let reduced: u128 = (shifted as u128) % (DEG_FULL as u128);
    proof {
        lemma_mod_multiples_vanish(5965233, a as int, DEG_FULL as int);
    }
    reduced as i64
}

/// Moves `a` toward `b` by the fraction `t` of the gap, where `t` is a
/// fixed-point value in `[0, FP_ONE]`. The result always lies between
/// `a` and `b`.
pub fn lerp(a: i64, b: i64, t: i64) -> (r: i64)
    requires
        -FP_ONE <= a <= FP_ONE,
        -FP_ONE <= b <= FP_ONE,
        0 <= t <= FP_ONE,
    ensures
        r == lerp_spec(a as int, b as int, t as int),
        if b >= a {
            a <= r <= b
        } else {
            b <= r <= a
        },
{
    if b >= a {
        let gap: u128 = (b - a) as u128;
        proof {
            let g = (b - a) as int;
            assert(0 <= g * t <= g * FP_ONE) by (nonlinear_arith)
                requires
                    g >= 0,
                    0 <= t <= FP_ONE,
            ;
            lemma_div_is_ordered(g * t, g * FP_ONE, FP_ONE as int);
        }
        let step: u128 = gap * (t as u128) / (FP_ONE as u128);
        a + (step as i64)
    } else {
        let gap: u128 = (a - b) as u128;
        proof {
            let g = (a - b) as int;
            assert(0 <= g * t <= g * FP_ONE) by (nonlinear_arith)
                requires
                    g >= 0,
                    0 <= t <= FP_ONE,
            ;
            lemma_div_is_ordered(g * t, g * FP_ONE, FP_ONE as int);
        }
        let step: u128 = gap * (t as u128) / (FP_ONE as u128);
        a - (step as i64)
    }
}

} // verus!
