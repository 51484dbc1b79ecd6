//! Fixed-point sine and cosine.
//!
//! The curve is the classical quadratic approximation
//! `sin t ~= 16 t (pi - t) / (5 pi^2 - 4 t (pi - t))` on `[0, pi]`, extended
//! by point symmetry to the full circle; the result is clamped to
//! `[-FX_ONE, FX_ONE]`. It is exact at multiples of `pi / 2`.

use vstd::prelude::*;
use crate::fx::{abs_i, abs_u64, fx_add, fx_add_s, min_i, FX_ONE};

verus! {

/// Half a turn, in 16.16 fixed-point radians; rounded up to an even count
/// so that the quarter turn is exact and the quadratic kernel hits exactly
/// one there (and so the zero rotation is exactly the identity).
pub const PI_FX: i64 = 205888;

/// A full turn, in 16.16 fixed-point radians.
pub const TAU_FX: i64 = 411776;

/// A quarter turn, in 16.16 fixed-point radians.
pub const QUARTER_TAU_FX: i64 = 102944;

/// Reduction of an angle to [0, TAU_FX).
pub open spec fn angle_mod_s(x: int) -> int {
    let m = abs_i(x) % (TAU_FX as int);
    if x >= 0 {
        m
    } else if m == 0 {
        0
    } else {
        TAU_FX as int - m
    }
}

/// The approximation on the half turn `t` in [0, PI_FX]; the literal
/// 211949342720 is `5 * PI_FX * PI_FX`, the denominator's constant term.
pub open spec fn sin_half_s(t: int) -> int {
    let a = t * (PI_FX as int - t);
    let den = if 4 * a >= 211949342720 {
        1
    } else {
        211949342720 - 4 * a
    };
    min_i((16 * a * (FX_ONE as int)) / den, FX_ONE as int)
}

/// Fixed-point sine of a fixed-point angle in radians.
pub open spec fn sin_fx_s(x: int) -> int {
    let m = angle_mod_s(x);
    if m < PI_FX as int {
        sin_half_s(m)
    } else {
        -sin_half_s(m - PI_FX as int)
    }
}

/// Fixed-point cosine: the sine a quarter turn ahead.
pub open spec fn cos_fx_s(x: int) -> int {
    sin_fx_s(fx_add_s(x as int, QUARTER_TAU_FX as int))
}

/// Reduction of an angle to [0, TAU_FX).
pub fn angle_mod(x: i64) -> (r: i64)
    ensures
        r == angle_mod_s(x as int),
        0 <= r < TAU_FX,
{
    let mag: u64 = abs_u64(x);
    let m: u64 = mag % 411776;
    if x >= 0 {
        m as i64
    } else if m == 0 {
        0
    } else {
        TAU_FX - m as i64
    }
}

fn sin_half(t: i64) -> (r: i64)
    requires
        0 <= t <= PI_FX,
    ensures
        r == sin_half_s(t as int),
        0 <= r <= FX_ONE,
{
    let ua: u128 = t as u128;
    let ub: u128 = (PI_FX - t) as u128;
    proof {
        assert(ua * ub <= 42389868544u128 && ua * ub == t as int * (PI_FX as int - t as int))
            by (nonlinear_arith)
            requires
                ua == t as int,
                ub == PI_FX as int - t as int,
                0 <= ua <= 205888,
                0 <= ub <= 205888,
        ;
    }
    let a: u128 = ua * ub;
    let den: u128 = if 4 * a >= 211949342720 {
        1
    } else {
        211949342720 - 4 * a
    };
    let q: u128 = (16 * a * 65536) / den;
    if q > 65536 {
        FX_ONE
    } else {
        q as i64
    }
}

/// Fixed-point sine of a fixed-point angle in radians.
pub fn sin_fx(x: i64) -> (r: i64)
    ensures
        r == sin_fx_s(x as int),
        -FX_ONE <= r <= FX_ONE,
{
    let m: i64 = angle_mod(x);
    if m < PI_FX {
        sin_half(m)
    } else {
        -sin_half(m - PI_FX)
    }
}

/// Fixed-point cosine of a fixed-point angle in radians.
pub fn cos_fx(x: i64) -> (r: i64)
    ensures
        r == cos_fx_s(x as int),
        -FX_ONE <= r <= FX_ONE,
{
    sin_fx(fx_add(x, QUARTER_TAU_FX))
}

} // verus!
