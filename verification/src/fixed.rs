//! Fixed-point scalars for normalized control values.
//!
//! A raw value `v: i64` stands for the real number `v / UNIT`; the legal
//! band `[-UNIT, UNIT]` stands for `[-1.0, 1.0]`. The helpers here are the
//! arithmetic every drive computation is built from: clamping to the band
//! and sign-preserving squaring (which makes an analog stick less sensitive
//! near the center).

use vstd::arithmetic::div_mod::{
    lemma_div_is_ordered, lemma_div_multiples_vanish, lemma_div_nonincreasing, lemma_div_of0,
    lemma_div_pos_is_pos,
};
use vstd::prelude::*;

verus! {

/// One full unit of normalized output: raw value `UNIT` stands for `1.0`.
pub const UNIT: i64 = 1_000_000;

/// Absolute value.
pub open spec fn abs_of(v: int) -> int {
    if v < 0 {
        -v
    } else {
        v
    }
}

/// `magnitude`, carrying the sign of `sign_source`.
pub open spec fn with_sign_of(sign_source: int, magnitude: int) -> int {
    if sign_source < 0 {
        -magnitude
    } else {
        magnitude
    }
}

/// Saturation to the legal band `[-UNIT, UNIT]`.
pub open spec fn clamped(v: int) -> int {
    if v < -(UNIT as int) {
        -(UNIT as int)
    } else if v > UNIT as int {
        UNIT as int
    } else {
        v
    }
}

/// Sign-preserving square: `|v|^2 / UNIT`, with the sign of `v` restored.
/// A naive square would destroy the sign of negative inputs.
pub open spec fn squared(v: int) -> int {
    with_sign_of(v, abs_of(v) * abs_of(v) / (UNIT as int))
}

/// One side of a tank-drive command: clamp, then optionally square.
pub open spec fn shaped(v: int, square_input: bool) -> int {
    if square_input {
        squared(clamped(v))
    } else {
        clamped(v)
    }
}

/// Quotients of nonnegative values stay below any bound the dividend's
/// product form gives: `a <= b * d` forces `a / d <= b`.
pub proof fn lemma_div_bounded(a: int, b: int, d: int)
    requires
        0 <= a,
        0 <= b,
        0 < d,
        a <= b * d,
    ensures
        0 <= a / d <= b,
{
    lemma_div_pos_is_pos(a, d);
    lemma_div_is_ordered(a, b * d, d);
    lemma_div_multiples_vanish(b, d);
    assert(b * d == d * b) by (nonlinear_arith);
}

/// Absolute value of a raw scalar.
pub fn abs_i64(v: i64) -> (r: i64)
    requires
        i64::MIN < v,
    ensures
        r == abs_of(v as int),
{
    if v < 0 {
        -v
    } else {
        v
    }
}

/// Squaring preserves the sign of its input: the shaped value is an odd
/// function of the raw value, never positive for a negative input and
/// never negative for a positive one.
pub proof fn lemma_squared_preserves_sign(v: int)
    ensures
        squared(-v) == -squared(v),
        v >= 0 ==> squared(v) >= 0,
        v <= 0 ==> squared(v) <= 0,
{
    let a = abs_of(v);
    let q = a * a / (UNIT as int);
    assert(a * a >= 0) by (nonlinear_arith)
        requires a >= 0;
    lemma_div_pos_is_pos(a * a, UNIT as int);
    if v == 0 {
        assert(a * a == 0) by (nonlinear_arith)
            requires a == 0;
        lemma_div_of0(UNIT as int);
    }
    assert(abs_of(-v) == a);
    assert(squared(v) == with_sign_of(v, q));
    assert(squared(-v) == with_sign_of(-v, q));
}

/// Exact clamp to `[-UNIT, UNIT]`.
pub fn clamp_unit(v: i64) -> (r: i64)
    ensures
        r == clamped(v as int),
        -UNIT <= r <= UNIT,
{
    if v < -UNIT {
        -UNIT
    } else if v > UNIT {
        UNIT
    } else {
        v
    }
}

/// Quotient of nonnegative fixed-point values.
pub fn div_nonneg(a: i64, b: i64) -> (r: i64)
    requires
        0 <= a,
        0 < b,
    ensures
        r == a as int / b as int,
        0 <= r <= a,
{
    proof {
        lemma_div_nonincreasing(a as int, b as int);
        lemma_div_pos_is_pos(a as int, b as int);
    }
    ((a as u64) / (b as u64)) as i64
}

/// Sign-preserving square of a value already inside the legal band.
pub fn square_signed(v: i64) -> (r: i64)
    requires
        -UNIT <= v <= UNIT,
    ensures
        r == squared(v as int),
        -UNIT <= r <= UNIT,
{
    let m: i64 = if v < 0 {
        -v
    } else {
        v
    };
    proof {
        assert(m * m <= UNIT * UNIT) by (nonlinear_arith)
            requires 0 <= m <= UNIT;
        lemma_div_bounded(m * m, UNIT as int, UNIT as int);
    }
    let sq: i64 = ((m as u64 * m as u64) / (UNIT as u64)) as i64;
    if v < 0 {
        -sq
    } else {
        sq
    }
}

/// One side of a tank-drive command: clamp, then optionally square.
pub fn shape_input(v: i64, square_input: bool) -> (r: i64)
    ensures
        r == shaped(v as int, square_input),
        -UNIT <= r <= UNIT,
{
    let c = clamp_unit(v);
    if square_input {
        square_signed(c)
    } else {
        c
    }
}

} // verus!
