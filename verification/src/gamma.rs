//! Fixed-point sRGB gamma correction.
//!
//! The perceptual luminance metric linearizes each 8-bit channel with the
//! piecewise sRGB curve: `v/12.92` for small values, `((v+0.055)/1.055)^2.4`
//! otherwise.  All arithmetic here is exact integer arithmetic on values
//! scaled by `GAMMA_SCALE`; the fractional exponent is computed as
//! `x^(12/5) = ((x^2)^6)^(1/5)` with a floor fifth root.

use vstd::prelude::*;

verus! {

/// Channel values linearized by the gamma curve are scaled by this factor.
pub const GAMMA_SCALE: u64 = 1_000_000;

/// Fifth power of an integer.
pub open spec fn pow5(x: int) -> int {
    x * x * x * x * x
}

/// Largest `r` with `pow5(r) <= x`, for nonnegative `x`.
pub open spec fn floor_root5(x: int) -> int
    decreases x,
{
    if x <= 0 {
        0
    } else {
        let p = floor_root5(x - 1);
        if pow5(p + 1) <= x {
            p + 1
        } else {
            p
        }
    }
}

pub proof fn lemma_pow5_increases(a: int, b: int)
    by (nonlinear_arith)
    requires
        0 <= a <= b,
    ensures
        pow5(a) <= pow5(b),
{
}

pub proof fn lemma_pow5_strictly_increases(a: int, b: int)
    by (nonlinear_arith)
    requires
        0 <= a < b,
    ensures
        pow5(a) < pow5(b),
{
}

pub proof fn lemma_floor_root5_bounds(x: int)
    requires
        0 <= x,
    ensures
        0 <= floor_root5(x),
        pow5(floor_root5(x)) <= x < pow5(floor_root5(x) + 1),
    decreases x,
{
    if x == 0 {
        assert(pow5(0) == 0);
        assert(pow5(1) == 1);
    } else {
        lemma_floor_root5_bounds(x - 1);
        let p = floor_root5(x - 1);
        if pow5(p + 1) <= x {
            lemma_pow5_strictly_increases(p + 1, p + 2);
        }
    }
}

/// The floor fifth root is the only value in its bracketing window.
pub proof fn lemma_floor_root5_unique(x: int, r: int)
    requires
        0 <= x,
        0 <= r,
        pow5(r) <= x < pow5(r + 1),
    ensures
        r == floor_root5(x),
{
    let f = floor_root5(x);
    lemma_floor_root5_bounds(x);
    if r < f {
        lemma_pow5_increases(r + 1, f);
    }
    if f < r {
        lemma_pow5_increases(f + 1, r);
    }
}

/// Fifth power of a value at most `1_000_001`, without overflow.
fn pow5_u128(m: u128) -> (p: u128)
    requires
        m <= 1_000_001,
    ensures
        p == pow5(m as int),
{
    proof {
        assert(m * m <= 1_000_001u128 * 1_000_001) by (nonlinear_arith)
            requires
                m <= 1_000_001,
        ;
    }
    let m2: u128 = m * m;
    proof {
        assert(m2 * m2 <= 1_000_002_000_001u128 * 1_000_002_000_001) by (nonlinear_arith)
            requires
                m2 <= 1_000_002_000_001u128,
        ;
    }
    let m4: u128 = m2 * m2;
    proof {
        assert(m4 * m <= 1_000_004_000_006_000_004_000_001u128 * 1_000_001) by (nonlinear_arith)
            requires
                m4 <= 1_000_004_000_006_000_004_000_001u128,
                m <= 1_000_001,
        ;
    }
    let p: u128 = m4 * m;
    proof {
        assert(p == pow5(m as int)) by (nonlinear_arith)
            requires
                m2 == m * m,
                m4 == m2 * m2,
                p == m4 * m,
        ;
    }
    p
}

/// Floor fifth root by bisection.
pub fn root5(x: u128) -> (r: u64)
    requires
        x <= 1_000_000_000_000_000_000_000_000_000_000u128,
    ensures
        r == floor_root5(x as int),
        r <= 1_000_000,
{
    let mut lo: u64 = 0;
    let mut hi: u64 = 1_000_001;
    proof {
        assert(pow5(0) == 0);
        assert(pow5(1_000_001) > 1_000_000_000_000_000_000_000_000_000_000);
    }
    while lo + 1 < hi
        invariant
            lo < hi <= 1_000_001,
            x <= 1_000_000_000_000_000_000_000_000_000_000u128,
            pow5(lo as int) <= x as int,
            (x as int) < pow5(hi as int),
        decreases hi - lo,
    {
        let mid: u64 = lo + (hi - lo) / 2;
        let p: u128 = pow5_u128(mid as u128);
        if p <= x {
            lo = mid;
        } else {
            hi = mid;
        }
    }
    proof {
        lemma_floor_root5_unique(x as int, lo as int);
    }
    lo
}

/// Fixed-point linearization of an 8-bit channel value `k` (meaning `k/255`):
/// `GAMMA_SCALE` times the sRGB-linearized channel, rounded down.
///
/// For `k/255 <= 0.04045` (that is, `k <= 10`) the curve is `v/12.92`;
/// otherwise it is `((v + 0.055)/1.055)^2.4`, evaluated at scale `10^6` as
/// `u^2.4 = ((u^2)^6)^(1/5)` with each intermediate floor-divided back to
/// scale `10^6`.
pub open spec fn gamma_of(k: u8) -> int {
    if k <= 10 {
        (k as int * 100_000_000) / 329_460
    } else {
        let u = ((1000 * k as int + 14_025) * 1_000_000) / 269_025;
        let q = (u * u) / 1_000_000;
        floor_root5((q * q * q * q * q * q) / 1_000_000)
    }
}

pub proof fn lemma_gamma_of_bounds(k: u8)
    ensures
        0 <= gamma_of(k) <= 1_000_000,
{
    if k <= 10 {
        assert((k as int * 100_000_000) / 329_460 <= 1_000_000_000int / 329_460);
    } else {
        let u = ((1000 * k as int + 14_025) * 1_000_000) / 269_025;
        assert((1000 * k as int + 14_025) * 1_000_000 <= 269_025 * 1_000_000);
        assert(0 <= u <= 1_000_000);
        let q = (u * u) / 1_000_000;
        assert(u * u <= 1_000_000_000_000) by (nonlinear_arith)
            requires
                0 <= u <= 1_000_000,
        ;
        assert(0 <= q <= 1_000_000);
        let t = (q * q * q * q * q * q) / 1_000_000;
        assert(q * q * q * q * q * q <= 1_000_000_000_000_000_000_000_000_000_000_000_000int)
            by (nonlinear_arith)
            requires
                0 <= q <= 1_000_000,
        ;
        assert(0 <= t <= 1_000_000_000_000_000_000_000_000_000_000int);
        lemma_floor_root5_bounds(t);
        let f = floor_root5(t);
        if f > 1_000_000 {
            lemma_pow5_increases(1_000_001, f);
            assert(pow5(1_000_001) > 1_000_000_000_000_000_000_000_000_000_000int);
        }
    }
}

/// Exec computation of `gamma_of`.
pub fn gamma_channel(k: u8) -> (g: u64)
    ensures
        g == gamma_of(k),
        g <= 1_000_000,
{
    proof {
        lemma_gamma_of_bounds(k);
    }
    if k <= 10 {
        ((k as u64) * 100_000_000) / 329_460
    } else {
        let n: u128 = (1000 * (k as u128) + 14_025) * 1_000_000;
        let u: u128 = n / 269_025;
        assert(u <= 1_000_000);
        proof {
            assert(u * u <= 1_000_000_000_000u128) by (nonlinear_arith)
                requires
                    u <= 1_000_000,
            ;
        }
        let q: u128 = (u * u) / 1_000_000;
        assert(q <= 1_000_000);
        proof {
            assert(q * q <= 1_000_000_000_000u128) by (nonlinear_arith)
                requires
                    q <= 1_000_000,
            ;
        }
        let q2: u128 = q * q;
        proof {
            assert(q2 * q2 <= 1_000_000_000_000u128 * 1_000_000_000_000) by (nonlinear_arith)
                requires
                    q2 <= 1_000_000_000_000u128,
            ;
        }
        let q4: u128 = q2 * q2;
        proof {
            assert(q4 * q2 <= 1_000_000_000_000_000_000_000_000u128 * 1_000_000_000_000)
                by (nonlinear_arith)
                requires
                    q4 <= 1_000_000_000_000_000_000_000_000u128,
                    q2 <= 1_000_000_000_000u128,
            ;
        }
        let q6: u128 = q4 * q2;
        proof {
            assert(q6 == q * q * q * q * q * q) by (nonlinear_arith)
                requires
                    q2 == q * q,
                    q4 == q2 * q2,
                    q6 == q4 * q2,
            ;
        }
        let t: u128 = q6 / 1_000_000;
        assert(t <= 1_000_000_000_000_000_000_000_000_000_000u128);
        root5(t)
    }
}

} // verus!
