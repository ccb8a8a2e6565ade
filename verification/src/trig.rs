//! Fixed-point sine and cosine of angles given in fixed-point degrees.
//!
//! The angle is reduced to an octant of the circle and the remaining
//! arc, at most an eighth of a turn, is converted to radians at a high
//! internal precision of [`S2`] (56 fractional bits). Sine and cosine on
//! that reduced range are evaluated as truncated Taylor polynomials in
//! Horner form; the octant identities then recover the full circle.
//! Results carry the ordinary 32 fractional bits of [`FP_ONE`] and always
//! lie in `[-FP_ONE, FP_ONE]`.

use crate::fixed::{DEG_FULL, FP_ONE};
use vstd::arithmetic::div_mod::lemma_div_is_ordered;
use vstd::prelude::*;

verus! {

/// The internal scale of the polynomial evaluation: 56 fractional bits.
pub const S2: u64 = 72057594037927936;

/// One radian-per-degree at the internal scale: the integer part of
/// `pi / 180 * 2^56`.
pub const RAD_S2: u64 = 1257642267027278;

/// An eighth of a turn (45 degrees) in fixed-point degrees.
pub const OCTANT: i64 = 45 * 4294967296;

/// The largest reduced arc in internal radians: `45 * RAD_S2`.
pub const X_MAX: u64 = 56593902016227510;

/// The ratio between the internal scale and the fixed-point scale.
pub const S2_PER_FP: u64 = 16777216;

/// Fixed-point product at the internal scale.
pub open spec fn mul_s2_spec(a: int, b: int) -> int {
    a * b / (S2 as int)
}

/// The truncated Taylor polynomial for sine at the internal scale,
/// evaluated in Horner form: `x (1 - y/6 (1 - y/20 (1 - y/42 (1 - y/72
/// (1 - y/110)))))` with `y = x^2`.
pub open spec fn sin_poly_spec(x: int) -> int {
    let y = mul_s2_spec(x, x);
    let v1 = S2 - y / 110;
    let v2 = S2 - mul_s2_spec(y, v1) / 72;
    let v3 = S2 - mul_s2_spec(y, v2) / 42;
    let v4 = S2 - mul_s2_spec(y, v3) / 20;
    let v5 = S2 - mul_s2_spec(y, v4) / 6;
    mul_s2_spec(x, v5)
}

/// The truncated Taylor polynomial for cosine at the internal scale,
/// evaluated in Horner form: `1 - y/2 (1 - y/12 (1 - y/30 (1 - y/56
/// (1 - y/90 (1 - y/132)))))` with `y = x^2`.
pub open spec fn cos_poly_spec(x: int) -> int {
    let y = mul_s2_spec(x, x);
    let u1 = S2 - y / 132;
    let u2 = S2 - mul_s2_spec(y, u1) / 90;
    let u3 = S2 - mul_s2_spec(y, u2) / 56;
    let u4 = S2 - mul_s2_spec(y, u3) / 30;
    let u5 = S2 - mul_s2_spec(y, u4) / 12;
    S2 - mul_s2_spec(y, u5) / 2
}

/// A reduced arc of `t` fixed-point degrees as internal-scale radians.
pub open spec fn rad_of_deg_spec(t: int) -> int {
    t * (RAD_S2 as int) / (FP_ONE as int)
}

/// Fixed-point sine of a reduced arc of `t` fixed-point degrees.
pub open spec fn sin_small_spec(t: int) -> int {
    sin_poly_spec(rad_of_deg_spec(t)) / (S2_PER_FP as int)
}

/// Fixed-point cosine of a reduced arc of `t` fixed-point degrees.
pub open spec fn cos_small_spec(t: int) -> int {
    cos_poly_spec(rad_of_deg_spec(t)) / (S2_PER_FP as int)
}

/// Fixed-point sine and cosine of an angle of `a` fixed-point degrees in
/// `[0, DEG_FULL)`, by octant reduction to the polynomials above.
pub open spec fn sin_cos_spec(a: int) -> (int, int) {
    let oct = a / (OCTANT as int);
    let r = a % (OCTANT as int);
    let t = OCTANT - r;
    if oct == 0 {
        (sin_small_spec(r), cos_small_spec(r))
    } else if oct == 1 {
        (cos_small_spec(t), sin_small_spec(t))
    } else if oct == 2 {
        (cos_small_spec(r), -sin_small_spec(r))
    } else if oct == 3 {
        (sin_small_spec(t), -cos_small_spec(t))
    } else if oct == 4 {
        (-sin_small_spec(r), -cos_small_spec(r))
    } else if oct == 5 {
        (-cos_small_spec(t), -sin_small_spec(t))
    } else if oct == 6 {
        (-cos_small_spec(r), sin_small_spec(r))
    } else {
        (-sin_small_spec(t), cos_small_spec(t))
    }
}

/// Product of two internal-scale values, truncated back to that scale.
fn mul_s2(a: u64, b: u64) -> (r: u64)
    requires
        a <= S2,
        b <= S2,
    ensures
        r == mul_s2_spec(a as int, b as int),
        r <= a,
        r <= b,
{
    proof {
        assert(a * b <= a * S2 && a * b <= b * S2 && a * b >= 0) by (nonlinear_arith)
            requires
                0 <= a <= S2,
                0 <= b <= S2,
        ;
        lemma_div_is_ordered(a as int * b as int, a as int * S2 as int, S2 as int);
        lemma_div_is_ordered(a as int * b as int, b as int * S2 as int, S2 as int);
    }
    ((a as u128) * (b as u128) / (S2 as u128)) as u64
}

/// Sine and cosine of a reduced arc of `t` fixed-point degrees, at most
/// an eighth of a turn.
fn sincos_small(t: i64) -> (r: (i64, i64))
    requires
        0 <= t <= OCTANT,
    ensures
        r.0 == sin_small_spec(t as int),
        r.1 == cos_small_spec(t as int),
        0 <= r.0 <= FP_ONE,
        0 <= r.1 <= FP_ONE,
{
    proof {
        lemma_div_is_ordered(
            t as int * RAD_S2 as int,
            OCTANT as int * RAD_S2 as int,
            FP_ONE as int,
        );
        vstd::arithmetic::div_mod::lemma_div_multiples_vanish(45 * RAD_S2 as int, FP_ONE as int);
        assert(OCTANT as int * RAD_S2 as int == FP_ONE as int * (45 * RAD_S2 as int))
            by (nonlinear_arith);
        assert(OCTANT as int * RAD_S2 as int / FP_ONE as int == X_MAX);
    }
    let x: u64 = ((t as u128) * (RAD_S2 as u128) / (FP_ONE as u128)) as u64;
    assert(x <= X_MAX);
    let y: u64 = mul_s2(x, x);

    let v1: u64 = S2 - y / 110;
    let v2: u64 = S2 - mul_s2(y, v1) / 72;
    let v3: u64 = S2 - mul_s2(y, v2) / 42;
    let v4: u64 = S2 - mul_s2(y, v3) / 20;
    let v5: u64 = S2 - mul_s2(y, v4) / 6;
    let sin_s2: u64 = mul_s2(x, v5);

    let u1: u64 = S2 - y / 132;
    let u2: u64 = S2 - mul_s2(y, u1) / 90;
    let u3: u64 = S2 - mul_s2(y, u2) / 56;
    let u4: u64 = S2 - mul_s2(y, u3) / 30;
    let u5: u64 = S2 - mul_s2(y, u4) / 12;
    let cos_s2: u64 = S2 - mul_s2(y, u5) / 2;

    let s: u64 = sin_s2 / S2_PER_FP;
    let c: u64 = cos_s2 / S2_PER_FP;
    (s as i64, c as i64)
}

/// Fixed-point sine and cosine of an angle of `a` fixed-point degrees.
pub fn sin_cos(a: i64) -> (r: (i64, i64))
    requires
        0 <= a < DEG_FULL,
    ensures
        r.0 == sin_cos_spec(a as int).0,
        r.1 == sin_cos_spec(a as int).1,
        -FP_ONE <= r.0 <= FP_ONE,
        -FP_ONE <= r.1 <= FP_ONE,
{
    let oct: u64 = (a as u64) / (OCTANT as u64);
    let rem: i64 = ((a as u64) % (OCTANT as u64)) as i64;
    if oct == 0 {
        let (s, c) = sincos_small(rem);
        (s, c)
    } else if oct == 1 {
        let (s, c) = sincos_small(OCTANT - rem);
        (c, s)
    } else if oct == 2 {
        let (s, c) = sincos_small(rem);
        (c, -s)
    } else if oct == 3 {
        let (s, c) = sincos_small(OCTANT - rem);
        (s, -c)
    } else if oct == 4 {
        let (s, c) = sincos_small(rem);
        (-s, -c)
    } else if oct == 5 {
        let (s, c) = sincos_small(OCTANT - rem);
        (-c, -s)
    } else if oct == 6 {
        let (s, c) = sincos_small(rem);
        (-c, s)
    } else {
        let (s, c) = sincos_small(OCTANT - rem);
        (-s, c)
    }
}

} // verus!
