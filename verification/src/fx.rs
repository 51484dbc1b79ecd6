//! 16.16 fixed-point scalars: saturating arithmetic and an integer square
//! root, each executable operation proved equal to its spec-level mirror.

use vstd::prelude::*;

verus! {

/// One unit in the 16.16 fixed-point scale.
pub const FX_ONE: i64 = 65536;

/// Largest representable fixed-point value; all arithmetic saturates here.
pub const FX_MAX: i64 = i64::MAX;

/// Smallest value the saturating arithmetic produces; symmetric to `FX_MAX`
/// so that negation never overflows.
pub const FX_MIN: i64 = -i64::MAX;

/// Hit tolerance of the ray march, about 0.003.
pub const EPSILON: i64 = 197;

/// Miss bound of the ray march: a field value beyond 100 ends the ray.
pub const MAXVAL: i64 = 6553600;

/// Absolute value over mathematical integers.
pub open spec fn abs_i(x: int) -> int {
    if x < 0 {
        -x
    } else {
        x
    }
}

pub open spec fn min_i(a: int, b: int) -> int {
    if a < b {
        a
    } else {
        b
    }
}

pub open spec fn max_i(a: int, b: int) -> int {
    if a > b {
        a
    } else {
        b
    }
}

/// Symmetric saturation to the representable fixed-point range.
pub open spec fn cl(x: int) -> int {
    if x > FX_MAX as int {
        FX_MAX as int
    } else if x < FX_MIN as int {
        FX_MIN as int
    } else {
        x
    }
}

pub open spec fn fx_add_s(a: int, b: int) -> int {
    cl(a + b)
}

pub open spec fn fx_sub_s(a: int, b: int) -> int {
    cl(a - b)
}

pub open spec fn fx_neg_s(a: int) -> int {
    cl(-a)
}

/// Fixed-point product: magnitudes are multiplied, rescaled by `FX_ONE`
/// rounding toward zero, saturated, and given the sign of the exact product.
pub open spec fn fx_mul_s(a: int, b: int) -> int {
    let m = (abs_i(a) * abs_i(b)) / (FX_ONE as int);
    let mc = if m > FX_MAX as int {
        FX_MAX as int
    } else {
        m
    };
    if (a < 0) != (b < 0) {
        -mc
    } else {
        mc
    }
}

/// Fixed-point quotient, total: division by zero saturates by the sign of
/// the dividend (and gives 0 for 0/0).
pub open spec fn fx_div_s(a: int, b: int) -> int {
    if b == 0 {
        if a == 0 {
            0
        } else if a < 0 {
            FX_MIN as int
        } else {
            FX_MAX as int
        }
    } else {
        let m = (abs_i(a) * (FX_ONE as int)) / abs_i(b);
        let mc = if m > FX_MAX as int {
            FX_MAX as int
        } else {
            m
        };
        if (a < 0) != (b < 0) {
            -mc
        } else {
            mc
        }
    }
}

/// Conversion of a whole number to fixed point, saturating.
pub open spec fn to_fx_s(v: int) -> int {
    cl(v * (FX_ONE as int))
}

/// Magnitude of an `i64`, exact also for `i64::MIN`.
pub fn abs_u64(a: i64) -> (r: u64)
    ensures
        r as int == abs_i(a as int),
{
    if a >= 0 {
        a as u64
    } else {
        let w: i128 = -(a as i128);
        w as u64
    }
}

pub fn fx_add(a: i64, b: i64) -> (r: i64)
    ensures
        r == fx_add_s(a as int, b as int),
{
    let s: i128 = a as i128 + b as i128;
    if s > FX_MAX as i128 {
        FX_MAX
    } else if s < FX_MIN as i128 {
        FX_MIN
    } else {
        s as i64
    }
}

pub fn fx_sub(a: i64, b: i64) -> (r: i64)
    ensures
        r == fx_sub_s(a as int, b as int),
{
    let s: i128 = a as i128 - b as i128;
    if s > FX_MAX as i128 {
        FX_MAX
    } else if s < FX_MIN as i128 {
        FX_MIN
    } else {
        s as i64
    }
}

pub fn fx_neg(a: i64) -> (r: i64)
    ensures
        r == fx_neg_s(a as int),
{
    if a == i64::MIN {
        FX_MAX
    } else {
        -a
    }
}

pub fn fx_min(a: i64, b: i64) -> (r: i64)
    ensures
        r == min_i(a as int, b as int),
{
    if a < b {
        a
    } else {
        b
    }
}

pub fn fx_max(a: i64, b: i64) -> (r: i64)
    ensures
        r == max_i(a as int, b as int),
{
    if a > b {
        a
    } else {
        b
    }
}

pub fn fx_mul(a: i64, b: i64) -> (r: i64)
    ensures
        r == fx_mul_s(a as int, b as int),
{
    let ua: u128 = abs_u64(a) as u128;
    let ub: u128 = abs_u64(b) as u128;
    proof {
        assert(ua * ub <= 0x40000000000000000000000000000000u128) by (nonlinear_arith)
            requires
                ua <= 0x8000000000000000u128,
                ub <= 0x8000000000000000u128,
        ;
    }
    let m: u128 = (ua * ub) / 65536;
    let mc: i64 = if m > FX_MAX as u128 {
        FX_MAX
    } else {
        m as i64
    };
    if (a < 0) != (b < 0) {
        -mc
    } else {
        mc
    }
}

pub fn fx_div(a: i64, b: i64) -> (r: i64)
    ensures
        r == fx_div_s(a as int, b as int),
{
    if b == 0 {
        if a == 0 {
            0
        } else if a < 0 {
            FX_MIN
        } else {
            FX_MAX
        }
    } else {
        let ua: u128 = abs_u64(a) as u128;
        let ub: u128 = abs_u64(b) as u128;
        let m: u128 = (ua * 65536) / ub;
        let mc: i64 = if m > FX_MAX as u128 {
            FX_MAX
        } else {
            m as i64
        };
        if (a < 0) != (b < 0) {
            -mc
        } else {
            mc
        }
    }
}

pub fn to_fx(v: i64) -> (r: i64)
    ensures
        r == to_fx_s(v as int),
{
    let s: i128 = v as i128 * 65536;
    if s > FX_MAX as i128 {
        FX_MAX
    } else if s < FX_MIN as i128 {
        FX_MIN
    } else {
        s as i64
    }
}

/// Smooth minimum with blend radius `blend`: the sharp minimum when the
/// radius is zero (or the fields differ by at least the radius), otherwise
/// the minimum lowered by the quadratic kernel `(blend - d)^2 / (4 blend)`.
pub open spec fn fx_smin_s(a: int, b: int, blend: int) -> int {
    if blend <= 0 {
        min_i(a, b)
    } else {
        let d = fx_sub_s(max_i(a, b), min_i(a, b));
        if d >= blend {
            min_i(a, b)
        } else {
            let k = fx_sub_s(blend, d);
            let corr = fx_mul_s(fx_div_s(fx_mul_s(k, k), blend), 16384);
            fx_sub_s(min_i(a, b), corr)
        }
    }
}

/// Smooth maximum, dual to `fx_smin_s`: the sharp maximum raised by the same
/// kernel inside the blend band.
pub open spec fn fx_smax_s(a: int, b: int, blend: int) -> int {
    if blend <= 0 {
        max_i(a, b)
    } else {
        let d = fx_sub_s(max_i(a, b), min_i(a, b));
        if d >= blend {
            max_i(a, b)
        } else {
            let k = fx_sub_s(blend, d);
            let corr = fx_mul_s(fx_div_s(fx_mul_s(k, k), blend), 16384);
            fx_add_s(max_i(a, b), corr)
        }
    }
}

pub fn fx_smin(a: i64, b: i64, blend: i64) -> (r: i64)
    ensures
        r == fx_smin_s(a as int, b as int, blend as int),
{
    if blend <= 0 {
        fx_min(a, b)
    } else {
        let d: i64 = fx_sub(fx_max(a, b), fx_min(a, b));
        if d >= blend {
            fx_min(a, b)
        } else {
            let k: i64 = fx_sub(blend, d);
            let corr: i64 = fx_mul(fx_div(fx_mul(k, k), blend), 16384);
            fx_sub(fx_min(a, b), corr)
        }
    }
}

pub fn fx_smax(a: i64, b: i64, blend: i64) -> (r: i64)
    ensures
        r == fx_smax_s(a as int, b as int, blend as int),
{
    if blend <= 0 {
        fx_max(a, b)
    } else {
        let d: i64 = fx_sub(fx_max(a, b), fx_min(a, b));
        if d >= blend {
            fx_max(a, b)
        } else {
            let k: i64 = fx_sub(blend, d);
            let corr: i64 = fx_mul(fx_div(fx_mul(k, k), blend), 16384);
            fx_add(fx_max(a, b), corr)
        }
    }
}

/// Floor of the square root, defined by counting up; the executable
/// `isqrt` is proved to compute it.
pub open spec fn sqrt_floor(n: nat) -> nat
    decreases n,
{
    if n == 0 {
        0
    } else {
        let r = sqrt_floor((n - 1) as nat);
        if (r + 1) * (r + 1) <= n {
            r + 1
        } else {
            r
        }
    }
}

pub proof fn lemma_sqrt_floor(n: nat)
    ensures
        sqrt_floor(n) * sqrt_floor(n) <= n,
        n < (sqrt_floor(n) + 1) * (sqrt_floor(n) + 1),
    decreases n,
{
    if n > 0 {
        lemma_sqrt_floor((n - 1) as nat);
        let r = sqrt_floor((n - 1) as nat);
        if (r + 1) * (r + 1) <= n {
            assert(sqrt_floor(n) == r + 1);
            assert(n == (r + 1) * (r + 1));
            assert(n < (r + 2) * (r + 2)) by (nonlinear_arith)
                requires
                    n == (r + 1) * (r + 1),
            ;
            assert(sqrt_floor(n) * sqrt_floor(n) <= n);
            assert(n < (sqrt_floor(n) + 1) * (sqrt_floor(n) + 1));
        } else {
            assert(sqrt_floor(n) == r);
            assert(sqrt_floor(n) * sqrt_floor(n) <= n);
            assert(n < (sqrt_floor(n) + 1) * (sqrt_floor(n) + 1));
        }
    } else {
        assert(sqrt_floor(n) == 0);
        assert(n < (sqrt_floor(n) + 1) * (sqrt_floor(n) + 1)) by (nonlinear_arith)
            requires
                n == 0,
                sqrt_floor(n) == 0,
        ;
    }
}

pub proof fn lemma_sqrt_unique(n: nat, r: nat)
    requires
        r * r <= n,
        n < (r + 1) * (r + 1),
    ensures
        r == sqrt_floor(n),
{
    let s = sqrt_floor(n);
    lemma_sqrt_floor(n);
    if r < s {
        assert((r + 1) * (r + 1) <= s * s) by (nonlinear_arith)
            requires
                r + 1 <= s,
        ;
    }
    if s < r {
        assert((s + 1) * (s + 1) <= r * r) by (nonlinear_arith)
            requires
                s + 1 <= r,
        ;
    }
}

/// Floor of the square root of a `u128`, by binary search.
pub fn isqrt(n: u128) -> (r: u64)
    ensures
        r as nat == sqrt_floor(n as nat),
{
    if n >= 0xfffffffffffffffe0000000000000001u128 {
        proof {
            let m: nat = 0xffffffffffffffffu64 as nat;
            assert(m * m == 0xfffffffffffffffe0000000000000001u128 as nat);
            assert((m + 1) * (m + 1) == u128::MAX as nat + 1) by (nonlinear_arith)
                requires
                    m == 0xffffffffffffffffu64 as nat,
            ;
            lemma_sqrt_unique(n as nat, m);
        }
        return u64::MAX;
    }
    let mut lo: u64 = 0;
    let mut hi: u64 = u64::MAX;
    proof {
        assert(hi as int * hi as int == 0xfffffffffffffffe0000000000000001u128 as int);
    }
    while lo + 1 < hi
        invariant
            lo < hi,
            lo as int * lo as int <= n as int,
            (n as int) < hi as int * hi as int,
        decreases hi - lo,
    {
        let mid: u64 = lo + (hi - lo) / 2;
        proof {
            assert(mid as int * mid as int <= u128::MAX as int) by (nonlinear_arith)
                requires
                    mid as int <= 0xffffffffffffffffu64 as int,
            ;
        }
        if (mid as u128) * (mid as u128) <= n {
            lo = mid;
        } else {
            hi = mid;
        }
    }
    proof {
        lemma_sqrt_unique(n as nat, lo as nat);
    }
    lo
}

} // verus!
