//! Three-component fixed-point vectors and rays.

use vstd::prelude::*;
use crate::fx::{
    abs_i, abs_u64, fx_add, fx_add_s, fx_div, fx_div_s, fx_mul, fx_mul_s, fx_neg, fx_neg_s,
    fx_sub, fx_sub_s, isqrt, min_i, sqrt_floor, FX_MAX,
};

verus! {

/// A point or direction in space; each coordinate is 16.16 fixed point.
#[derive(Clone, Copy, PartialEq, Eq, Structural, Debug)]
pub struct Vector {
    pub x: i64,
    pub y: i64,
    pub z: i64,
}

/// A ray: an origin and a direction (renormalized at every marching step).
#[derive(Clone, Copy, PartialEq, Eq, Structural, Debug)]
pub struct Ray {
    pub origin: Vector,
    pub dir: Vector,
}

pub open spec fn vadd_s(a: Vector, b: Vector) -> Vector {
    Vector {
        x: fx_add_s(a.x as int, b.x as int) as i64,
        y: fx_add_s(a.y as int, b.y as int) as i64,
        z: fx_add_s(a.z as int, b.z as int) as i64,
    }
}

pub open spec fn vsub_s(a: Vector, b: Vector) -> Vector {
    Vector {
        x: fx_sub_s(a.x as int, b.x as int) as i64,
        y: fx_sub_s(a.y as int, b.y as int) as i64,
        z: fx_sub_s(a.z as int, b.z as int) as i64,
    }
}

pub open spec fn vneg_s(a: Vector) -> Vector {
    Vector {
        x: fx_neg_s(a.x as int) as i64,
        y: fx_neg_s(a.y as int) as i64,
        z: fx_neg_s(a.z as int) as i64,
    }
}

/// Scaling of a vector by a fixed-point factor.
pub open spec fn vscale_s(a: Vector, k: int) -> Vector {
    Vector {
        x: fx_mul_s(a.x as int, k) as i64,
        y: fx_mul_s(a.y as int, k) as i64,
        z: fx_mul_s(a.z as int, k) as i64,
    }
}

/// Componentwise quotient (for inverse scaling by per-axis factors).
pub open spec fn vdiv_s(a: Vector, f: Vector) -> Vector {
    Vector {
        x: fx_div_s(a.x as int, f.x as int) as i64,
        y: fx_div_s(a.y as int, f.y as int) as i64,
        z: fx_div_s(a.z as int, f.z as int) as i64,
    }
}

/// Exact sum of the squared coordinates (in squared fixed-point units).
pub open spec fn sq_s(a: Vector) -> nat {
    (a.x as int * a.x as int + a.y as int * a.y as int + a.z as int * a.z as int) as nat
}

/// Euclidean length: floor square root of the exact square sum, saturated.
pub open spec fn norm_s(a: Vector) -> int {
    min_i(sqrt_floor(sq_s(a)) as int, FX_MAX as int)
}

/// Length of the projection onto the x-y plane, as `norm_s`.
pub open spec fn norm2_s(a: int, b: int) -> int {
    min_i(sqrt_floor((a * a + b * b) as nat) as int, FX_MAX as int)
}

pub open spec fn dot_s(a: Vector, b: Vector) -> int {
    fx_add_s(
        fx_add_s(
            fx_mul_s(a.x as int, b.x as int),
            fx_mul_s(a.y as int, b.y as int),
        ),
        fx_mul_s(a.z as int, b.z as int),
    )
}

/// Normalization: each coordinate divided by the length; the zero vector is
/// returned unchanged.
pub open spec fn normalize_s(a: Vector) -> Vector {
    let n = norm_s(a);
    if n == 0 {
        a
    } else {
        Vector {
            x: fx_div_s(a.x as int, n) as i64,
            y: fx_div_s(a.y as int, n) as i64,
            z: fx_div_s(a.z as int, n) as i64,
        }
    }
}

pub fn vadd(a: Vector, b: Vector) -> (r: Vector)
    ensures
        r == vadd_s(a, b),
{
    Vector { x: fx_add(a.x, b.x), y: fx_add(a.y, b.y), z: fx_add(a.z, b.z) }
}

pub fn vsub(a: Vector, b: Vector) -> (r: Vector)
    ensures
        r == vsub_s(a, b),
{
    Vector { x: fx_sub(a.x, b.x), y: fx_sub(a.y, b.y), z: fx_sub(a.z, b.z) }
}

pub fn vneg(a: Vector) -> (r: Vector)
    ensures
        r == vneg_s(a),
{
    Vector { x: fx_neg(a.x), y: fx_neg(a.y), z: fx_neg(a.z) }
}

pub fn vscale(a: Vector, k: i64) -> (r: Vector)
    ensures
        r == vscale_s(a, k as int),
{
    Vector { x: fx_mul(a.x, k), y: fx_mul(a.y, k), z: fx_mul(a.z, k) }
}

pub fn vdiv(a: Vector, f: Vector) -> (r: Vector)
    ensures
        r == vdiv_s(a, f),
{
    Vector { x: fx_div(a.x, f.x), y: fx_div(a.y, f.y), z: fx_div(a.z, f.z) }
}

/// Length of the two-dimensional vector (a, b).
pub fn norm2(a: i64, b: i64) -> (r: i64)
    ensures
        r == norm2_s(a as int, b as int),
{
    let ua: u128 = abs_u64(a) as u128;
    let ub: u128 = abs_u64(b) as u128;
    proof {
        assert(ua * ua <= 0x40000000000000000000000000000000u128 && ua * ua == a as int * a as int
            && ub * ub <= 0x40000000000000000000000000000000u128 && ub * ub == b as int * b as int)
            by (nonlinear_arith)
            requires
                ua <= 0x8000000000000000u128,
                ub <= 0x8000000000000000u128,
                ua as int == abs_i(a as int),
                ub as int == abs_i(b as int),
        ;
    }
    let q: u128 = ua * ua + ub * ub;
    let s: u64 = isqrt(q);
    if s > FX_MAX as u64 {
        FX_MAX
    } else {
        s as i64
    }
}

pub fn norm(a: Vector) -> (r: i64)
    ensures
        r == norm_s(a),
{
    let ux: u128 = abs_u64(a.x) as u128;
    let uy: u128 = abs_u64(a.y) as u128;
    let uz: u128 = abs_u64(a.z) as u128;
    proof {
        assert(ux * ux <= 0x40000000000000000000000000000000u128 && ux * ux == a.x as int
            * a.x as int && uy * uy <= 0x40000000000000000000000000000000u128 && uy * uy == a.y
            as int * a.y as int && uz * uz <= 0x40000000000000000000000000000000u128 && uz * uz
            == a.z as int * a.z as int) by (nonlinear_arith)
            requires
                ux <= 0x8000000000000000u128,
                uy <= 0x8000000000000000u128,
                uz <= 0x8000000000000000u128,
                ux as int == abs_i(a.x as int),
                uy as int == abs_i(a.y as int),
                uz as int == abs_i(a.z as int),
        ;
    }
    let q: u128 = ux * ux + uy * uy + uz * uz;
    let s: u64 = isqrt(q);
    if s > FX_MAX as u64 {
        FX_MAX
    } else {
        s as i64
    }
}

pub fn dot(a: Vector, b: Vector) -> (r: i64)
    ensures
        r == dot_s(a, b),
{
    fx_add(fx_add(fx_mul(a.x, b.x), fx_mul(a.y, b.y)), fx_mul(a.z, b.z))
}

pub fn normalize(a: Vector) -> (r: Vector)
    ensures
        r == normalize_s(a),
{
    let n: i64 = norm(a);
    if n == 0 {
        a
    } else {
        Vector { x: fx_div(a.x, n), y: fx_div(a.y, n), z: fx_div(a.z, n) }
    }
}

} // verus!
