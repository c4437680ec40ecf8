//! Exact fixed-point arithmetic helpers.
//!
//! Angles are measured in milliradians (one full turn is 6283), and all
//! trigonometric results are scaled by 1000. The approximations below are
//! the definitions the rest of the crate computes with: every executable
//! function returns exactly the value of its spec-level counterpart.

use vstd::prelude::*;

verus! {

/// Truncating (round-toward-zero) division, the semantics of machine
/// integer division, expressed over mathematical integers.
pub open spec fn tdiv(a: int, b: int) -> int
    recommends
        b > 0,
{
    if a >= 0 {
        a / b
    } else {
        -((-a) / b)
    }
}

/// Divide two machine integers, rounding toward zero.
pub fn div_trunc(a: i64, b: i64) -> (q: i64)
    requires
        b > 0,
        a > i64::MIN,
    ensures
        q == tdiv(a as int, b as int),
{
    if a >= 0 {
        ((a as u64) / (b as u64)) as i64
    } else {
        let m: u64 = (-a) as u64;
        -((m / (b as u64)) as i64)
    }
}

/// Truncating division shrinks magnitude: a bound on the numerator gives
/// the corresponding bound on the quotient.
pub proof fn lemma_tdiv_bound(a: int, b: int, m: int)
    requires
        b > 0,
        m >= 0,
        -(m * b) <= a <= m * b,
    ensures
        -m <= tdiv(a, b) <= m,
{
    if a >= 0 {
        vstd::arithmetic::div_mod::lemma_fundamental_div_mod(a, b);
        assert(a / b <= m) by (nonlinear_arith)
            requires
                b > 0,
                a <= m * b,
                a == b * (a / b) + a % b,
                0 <= a % b < b,
        ;
        assert(a / b >= 0) by (nonlinear_arith)
            requires
                b > 0,
                a >= 0,
                a == b * (a / b) + a % b,
                0 <= a % b < b,
        ;
    } else {
        let n = -a;
        vstd::arithmetic::div_mod::lemma_fundamental_div_mod(n, b);
        assert(n / b <= m) by (nonlinear_arith)
            requires
                b > 0,
                n <= m * b,
                n == b * (n / b) + n % b,
                0 <= n % b < b,
        ;
        assert(n / b >= 0) by (nonlinear_arith)
            requires
                b > 0,
                n >= 0,
                n == b * (n / b) + n % b,
                0 <= n % b < b,
        ;
    }
}

/// Truncating division keeps the sign of the numerator.
pub proof fn lemma_tdiv_sign(a: int, b: int)
    requires
        b > 0,
    ensures
        a >= 0 ==> tdiv(a, b) >= 0,
        a <= 0 ==> tdiv(a, b) <= 0,
{
    if a >= 0 {
        vstd::arithmetic::div_mod::lemma_fundamental_div_mod(a, b);
        assert(a / b >= 0) by (nonlinear_arith)
            requires
                b > 0,
                a >= 0,
                a == b * (a / b) + a % b,
                0 <= a % b < b,
        ;
    } else {
        let n = -a;
        vstd::arithmetic::div_mod::lemma_fundamental_div_mod(n, b);
        assert(n / b >= 0) by (nonlinear_arith)
            requires
                b > 0,
                n >= 0,
                n == b * (n / b) + n % b,
                0 <= n % b < b,
        ;
    }
}

/// Integer square root: the greatest `r` with `r * r <= n`.
pub open spec fn spec_isqrt(n: nat) -> nat
    decreases n,
{
    if n == 0 {
        0
    } else {
        let r = spec_isqrt((n - 1) as nat);
        if (r + 1) * (r + 1) <= n {
            r + 1
        } else {
            r
        }
    }
}

pub proof fn lemma_isqrt_bracket(n: nat)
    ensures
        spec_isqrt(n) * spec_isqrt(n) <= n,
        n < (spec_isqrt(n) + 1) * (spec_isqrt(n) + 1),
    decreases n,
{
    if n == 0 {
        assert(spec_isqrt(0) == 0);
        assert(spec_isqrt(n) * spec_isqrt(n) <= n);
        assert(n < (spec_isqrt(n) + 1) * (spec_isqrt(n) + 1)) by (nonlinear_arith)
            requires
                n == 0,
                spec_isqrt(n) == 0,
        ;
    } else {
        lemma_isqrt_bracket((n - 1) as nat);
        let r = spec_isqrt((n - 1) as nat);
        assert(r * r <= n - 1 && n - 1 < (r + 1) * (r + 1));
        if (r + 1) * (r + 1) <= n {
            assert(spec_isqrt(n) == r + 1);
            assert(n < (r + 1 + 1) * (r + 1 + 1)) by (nonlinear_arith)
                requires
                    n <= (r + 1) * (r + 1),
            ;
            assert(spec_isqrt(n) * spec_isqrt(n) <= n);
            assert(n < (spec_isqrt(n) + 1) * (spec_isqrt(n) + 1));
        } else {
            assert(spec_isqrt(n) == r);
            assert(r * r <= n);
            assert(n < (r + 1) * (r + 1));
            assert(spec_isqrt(n) * spec_isqrt(n) <= n);
            assert(n < (spec_isqrt(n) + 1) * (spec_isqrt(n) + 1));
        }
    }
}

pub proof fn lemma_isqrt_unique(n: nat, r: nat)
    requires
        r * r <= n,
        n < (r + 1) * (r + 1),
    ensures
        r == spec_isqrt(n),
{
    lemma_isqrt_bracket(n);
    let s = spec_isqrt(n);
    if r < s {
        assert((r + 1) * (r + 1) <= s * s) by (nonlinear_arith)
            requires
                r + 1 <= s,
        ;
    }
    if s < r {
        assert((s + 1) * (s + 1) <= r * r) by (nonlinear_arith)
            requires
                s + 1 <= r,
        ;
    }
}

/// The integer square root never decreases as its argument grows.
pub proof fn lemma_isqrt_mono(a: nat, b: nat)
    requires
        a <= b,
    ensures
        spec_isqrt(a) <= spec_isqrt(b),
{
    lemma_isqrt_bracket(a);
    lemma_isqrt_bracket(b);
    let ra = spec_isqrt(a);
    let rb = spec_isqrt(b);
    if rb < ra {
        assert((rb + 1) * (rb + 1) <= ra * ra) by (nonlinear_arith)
            requires
                rb + 1 <= ra,
        ;
    }
}

/// Integer square root by bisection.
pub fn isqrt64(n: u64) -> (r: u64)
    requires
        n < 0x4000_0000_0000_0000,
    ensures
        r as nat == spec_isqrt(n as nat),
        r * r <= n,
        n < (r + 1) * (r + 1),
{
    let mut lo: u64 = 0;
    let mut hi: u64 = 0x8000_0000;
    assert(hi * hi == 0x4000_0000_0000_0000);
    while hi - lo > 1
        invariant
            lo < hi,
            hi <= 0x8000_0000,
            lo * lo <= n,
            n < hi * hi,
        decreases hi - lo,
    {
        let mid: u64 = lo + (hi - lo) / 2;
        assert(mid * mid <= 0x8000_0000u64 * 0x8000_0000u64) by (nonlinear_arith)
            requires
                mid <= 0x8000_0000u64,
        ;
        if mid * mid <= n {
            lo = mid;
        } else {
            hi = mid;
        }
    }
    proof {
        lemma_isqrt_unique(n as nat, lo as nat);
    }
    lo
}

/// Sine on [0, pi] milliradians by Bhaskara's rational approximation,
/// scaled by 1000.
pub open spec fn spec_bhaskara(t: int) -> int
    recommends
        0 <= t <= 3141,
{
    let p = t * (3141 - t);
    (16000 * p) / (49329405 - 4 * p)
}

proof fn lemma_bhaskara_p_bound(t: int)
    requires
        0 <= t <= 3141,
    ensures
        0 <= t * (3141 - t),
        4 * (t * (3141 - t)) <= 3141 * 3141,
    decreases 0int,
{
    assert(0 <= t * (3141 - t) && 4 * (t * (3141 - t)) <= 3141 * 3141) by (nonlinear_arith)
        requires
            0 <= t <= 3141,
    ;
}

fn bhaskara(t: u64) -> (r: i64)
    requires
        t <= 3141,
    ensures
        r == spec_bhaskara(t as int),
        0 <= r < 1000,
{
    proof {
        lemma_bhaskara_p_bound(t as int);
    }
    let p: u64 = t * (3141 - t);
    let denom: u64 = 49329405 - 4 * p;
    let num: u64 = 16000 * p;
    let q: u64 = num / denom;
    proof {
        vstd::arithmetic::div_mod::lemma_fundamental_div_mod(num as int, denom as int);
        assert(num < 1000 * denom);
        assert((num as int) / (denom as int) < 1000) by (nonlinear_arith)
            requires
                denom > 0,
                num < 1000 * denom,
                num == denom * ((num as int) / (denom as int)) + (num as int) % (denom as int),
                (num as int) % (denom as int) >= 0,
        ;
    }
    q as i64
}

/// Sine of a nonnegative milliradian angle, scaled by 1000.
pub open spec fn spec_sin_milli(x: int) -> int
    recommends
        x >= 0,
{
    let r = x % 6283;
    if r <= 3141 {
        spec_bhaskara(r)
    } else {
        -spec_bhaskara(r - 3142)
    }
}

pub fn sin_milli(x: u64) -> (r: i64)
    ensures
        r == spec_sin_milli(x as int),
        -1000 < r < 1000,
{
    let m: u64 = x % 6283;
    if m <= 3141 {
        bhaskara(m)
    } else {
        -bhaskara(m - 3142)
    }
}

/// Cosine of a nonnegative milliradian angle, scaled by 1000.
pub open spec fn spec_cos_milli(x: int) -> int
    recommends
        x >= 0,
{
    spec_sin_milli(x + 1571)
}

pub fn cos_milli(x: u64) -> (r: i64)
    requires
        x <= u64::MAX - 1571,
    ensures
        r == spec_cos_milli(x as int),
        -1000 < r < 1000,
{
    sin_milli(x + 1571)
}

/// Arctangent of `n / d` for `0 <= n <= d`, in milliradians.
pub open spec fn spec_atan_frac(n: int, d: int) -> int
    recommends
        0 <= n <= d,
        d > 0,
{
    let a = (1000 * n) / d;
    (785 * a) / 1000 + (273 * (a * (1000 - a))) / 1000000
}

fn atan_frac(n: u64, d: u64) -> (r: i64)
    requires
        n <= d,
        d >= 1,
        d <= 0x1_0000_0000,
    ensures
        r == spec_atan_frac(n as int, d as int),
        0 <= r <= 860,
{
    let a: u64 = (1000 * n) / d;
    proof {
        vstd::arithmetic::div_mod::lemma_fundamental_div_mod(1000 * n, d as int);
        assert((1000 * (n as int)) / (d as int) <= 1000) by (nonlinear_arith)
            requires
                d > 0,
                n <= d,
                1000 * (n as int) == d * ((1000 * (n as int)) / (d as int)) + (1000 * (n as int))
                    % (d as int),
                (1000 * (n as int)) % (d as int) >= 0,
        ;
        assert(0 <= a * (1000 - a) <= 250000) by (nonlinear_arith)
            requires
                0 <= a <= 1000,
        ;
    }
    let second: u64 = (273 * (a * (1000 - a))) / 1000000;
    let r: u64 = (785 * a) / 1000 + second;
    r as i64
}

/// Two-argument arctangent in milliradians: the angle of the vector
/// `(dx, dy)`, in `[-3141, 3141]`.
pub open spec fn spec_atan2_milli(dy: int, dx: int) -> int {
    if dx == 0 && dy == 0 {
        0
    } else {
        let ax = if dx >= 0 {
            dx
        } else {
            -dx
        };
        let ay = if dy >= 0 {
            dy
        } else {
            -dy
        };
        let base = if ay <= ax {
            spec_atan_frac(ay, ax)
        } else {
            1571 - spec_atan_frac(ax, ay)
        };
        if dx >= 0 && dy >= 0 {
            base
        } else if dx < 0 && dy >= 0 {
            3141 - base
        } else if dx < 0 {
            -(3141 - base)
        } else {
            -base
        }
    }
}

pub fn atan2_milli(dy: i64, dx: i64) -> (r: i64)
    requires
        -0x1_0000_0000 <= dy <= 0x1_0000_0000,
        -0x1_0000_0000 <= dx <= 0x1_0000_0000,
    ensures
        r == spec_atan2_milli(dy as int, dx as int),
        -3141 <= r <= 3141,
{
    if dx == 0 && dy == 0 {
        return 0;
    }
    let ax: u64 = if dx >= 0 {
        dx as u64
    } else {
        (-dx) as u64
    };
    let ay: u64 = if dy >= 0 {
        dy as u64
    } else {
        (-dy) as u64
    };
    let base: i64 = if ay <= ax {
        atan_frac(ay, ax)
    } else {
        1571 - atan_frac(ax, ay)
    };
    if dx >= 0 && dy >= 0 {
        base
    } else if dx < 0 && dy >= 0 {
        3141 - base
    } else if dx < 0 {
        -(3141 - base)
    } else {
        -base
    }
}

} // verus!
