//! Fixed-point scalar arithmetic.
//!
//! A scalar is an `i64` holding the real value multiplied by [`SCALE`]
//! (2^16).  Every operation saturates at the `i64` range instead of
//! overflowing, and every executable operation returns exactly the value of
//! its spec-level counterpart, so the whole renderer has a precise
//! mathematical model.

use vstd::arithmetic::div_mod::{lemma_div_multiples_vanish, lemma_div_nonincreasing};
use vstd::prelude::*;

verus! {

/// One whole unit: the fixed-point representation of 1.
pub const SCALE: i64 = 65536;

/// Saturate an unbounded integer into the `i64` range.
pub open spec fn clip(x: int) -> int {
    if x > i64::MAX {
        i64::MAX as int
    } else if x < i64::MIN {
        i64::MIN as int
    } else {
        x
    }
}

/// Magnitude of an integer.
pub open spec fn mag(x: int) -> int {
    if x < 0 {
        -x
    } else {
        x
    }
}

/// Division truncating toward zero (the rounding of Rust's `/`), defined
/// for positive divisors.
pub open spec fn tdiv(x: int, d: int) -> int {
    if x >= 0 {
        x / d
    } else {
        -((-x) / d)
    }
}

/// Saturating fixed-point addition.
pub open spec fn fx_add_s(a: i64, b: i64) -> i64 {
    clip(a + b) as i64
}

/// Saturating fixed-point subtraction.
pub open spec fn fx_sub_s(a: i64, b: i64) -> i64 {
    clip(a - b) as i64
}

/// Fixed-point negation; `i64::MIN` saturates to `i64::MAX`.
pub open spec fn fx_neg_s(a: i64) -> i64 {
    clip(-a) as i64
}

/// Saturating fixed-point multiplication: the product rescaled by `SCALE`,
/// rounded toward zero.
pub open spec fn fx_mul_s(a: i64, b: i64) -> i64 {
    clip(tdiv(a * b, SCALE as int)) as i64
}

/// Saturating fixed-point division, rounded toward zero; division by zero
/// yields zero.
pub open spec fn fx_div_s(a: i64, b: i64) -> i64 {
    if b == 0 {
        0
    } else if (a < 0) == (b < 0) {
        clip((mag(a as int) * SCALE) / mag(b as int)) as i64
    } else {
        clip(-((mag(a as int) * SCALE) / mag(b as int))) as i64
    }
}

/// Integer square root, the unique `r` with `r * r <= n < (r + 1) * (r + 1)`.
pub open spec fn isqrt_s(n: nat) -> nat
    decreases n,
{
    if n == 0 {
        0
    } else {
        let p = isqrt_s((n - 1) as nat);
        if (p + 1) * (p + 1) <= n {
            p + 1
        } else {
            p
        }
    }
}

/// Fixed-point square root: non-positive inputs yield zero.
pub open spec fn fx_sqrt_s(a: i64) -> i64 {
    if a <= 0 {
        0
    } else {
        isqrt_s((a * SCALE) as nat) as i64
    }
}

pub proof fn lemma_isqrt_bounds(n: nat)
    ensures
        isqrt_s(n) * isqrt_s(n) <= n,
        n < (isqrt_s(n) + 1) * (isqrt_s(n) + 1),
    decreases n,
{
    if n > 0 {
        lemma_isqrt_bounds((n - 1) as nat);
        let p = isqrt_s((n - 1) as nat);
        if (p + 1) * (p + 1) <= n {
            assert(isqrt_s(n) == p + 1);
            assert(isqrt_s(n) * isqrt_s(n) <= n && n < (isqrt_s(n) + 1) * (isqrt_s(n)
                + 1)) by (nonlinear_arith)
                requires
                    isqrt_s(n) == p + 1,
                    (p + 1) * (p + 1) <= n,
                    n - 1 < (p + 1) * (p + 1),
            ;
        } else {
            assert(isqrt_s(n) == p);
            assert(isqrt_s(n) * isqrt_s(n) <= n && n < (isqrt_s(n) + 1) * (isqrt_s(n)
                + 1)) by (nonlinear_arith)
                requires
                    isqrt_s(n) == p,
                    p * p <= n - 1,
                    n < (p + 1) * (p + 1),
            ;
        }
    } else {
        assert(isqrt_s(n) == 0);
        assert(isqrt_s(n) * isqrt_s(n) <= n && n < (isqrt_s(n) + 1) * (isqrt_s(n)
            + 1)) by (nonlinear_arith)
            requires
                isqrt_s(n) == 0,
                n == 0,
        ;
    }
}

pub proof fn lemma_isqrt_unique(n: nat, r: nat)
    requires
        r * r <= n,
        n < (r + 1) * (r + 1),
    ensures
        r == isqrt_s(n),
{
    let q = isqrt_s(n);
    lemma_isqrt_bounds(n);
    assert(r == q) by (nonlinear_arith)
        requires
            r * r <= n,
            n < (r + 1) * (r + 1),
            q * q <= n,
            n < (q + 1) * (q + 1),
            r >= 0,
            q >= 0,
    ;
}

/// Rescaling an exact multiple of `SCALE` divides out exactly.
pub proof fn lemma_tdiv_scale_exact(x: int)
    ensures
        tdiv(x * (SCALE as int), SCALE as int) == x,
{
    if x >= 0 {
        lemma_div_multiples_vanish(x, SCALE as int);
        assert((SCALE as int) * x == x * (SCALE as int)) by (nonlinear_arith);
        assert(x * (SCALE as int) >= 0) by (nonlinear_arith)
            requires
                x >= 0,
        ;
    } else {
        let y = -x;
        lemma_div_multiples_vanish(y, SCALE as int);
        assert((SCALE as int) * y == -(x * (SCALE as int))) by (nonlinear_arith)
            requires
                y == -x,
        ;
        assert(x * (SCALE as int) < 0) by (nonlinear_arith)
            requires
                x < 0,
        ;
    }
}

proof fn lemma_i64_product_bound(a: int, b: int)
    by (nonlinear_arith)
    requires
        -0x8000000000000000 <= a <= 0x7fffffffffffffff,
        -0x8000000000000000 <= b <= 0x7fffffffffffffff,
    ensures
        -0x40000000000000000000000000000000 <= a * b
            <= 0x40000000000000000000000000000000,
{
}

/// Saturating fixed-point addition.
pub fn fx_add(a: i64, b: i64) -> (r: i64)
    ensures
        r == fx_add_s(a, b),
{
    let s: i128 = a as i128 + b as i128;
    if s > i64::MAX as i128 {
        i64::MAX
    } else if s < i64::MIN as i128 {
        i64::MIN
    } else {
        s as i64
    }
}

/// Saturating fixed-point subtraction.
pub fn fx_sub(a: i64, b: i64) -> (r: i64)
    ensures
        r == fx_sub_s(a, b),
{
    let s: i128 = a as i128 - b as i128;
    if s > i64::MAX as i128 {
        i64::MAX
    } else if s < i64::MIN as i128 {
        i64::MIN
    } else {
        s as i64
    }
}

/// Fixed-point negation.
pub fn fx_neg(a: i64) -> (r: i64)
    ensures
        r == fx_neg_s(a),
{
    if a == i64::MIN {
        i64::MAX
    } else {
        -a
    }
}

/// Fixed-point magnitude; `i64::MIN` saturates to `i64::MAX`.
pub open spec fn fx_abs_s(a: i64) -> i64 {
    if a < 0 {
        fx_neg_s(a)
    } else {
        a
    }
}

/// Fixed-point magnitude.
pub fn fx_abs(a: i64) -> (r: i64)
    ensures
        r == fx_abs_s(a),
{
    if a < 0 {
        fx_neg(a)
    } else {
        a
    }
}

/// Saturate a signed 128-bit value into the `i64` range.
fn clip_i128(s: i128) -> (r: i64)
    ensures
        r == clip(s as int),
{
    if s > i64::MAX as i128 {
        i64::MAX
    } else if s < i64::MIN as i128 {
        i64::MIN
    } else {
        s as i64
    }
}

/// Saturating fixed-point multiplication.
pub fn fx_mul(a: i64, b: i64) -> (r: i64)
    ensures
        r == fx_mul_s(a, b),
{
    proof {
        lemma_i64_product_bound(a as int, b as int);
    }
    let p: i128 = a as i128 * b as i128;
    let neg: bool = p < 0;
    let m: u128 = if neg {
        (-p) as u128
    } else {
        p as u128
    };
    let q: u128 = m / 65536u128;
    proof {
        assert(m == mag(a as int * b as int));
        lemma_div_nonincreasing(m as int, 65536);
    }
    let sq: i128 = if neg {
        -(q as i128)
    } else {
        q as i128
    };
    proof {
        assert(sq == tdiv(a as int * b as int, SCALE as int));
    }
    clip_i128(sq)
}

/// Saturating fixed-point division; division by zero yields zero.
pub fn fx_div(a: i64, b: i64) -> (r: i64)
    ensures
        r == fx_div_s(a, b),
{
    if b == 0 {
        return 0;
    }
    let ma: u128 = if a < 0 {
        (-(a as i128)) as u128
    } else {
        a as u128
    };
    let mb: u128 = if b < 0 {
        (-(b as i128)) as u128
    } else {
        b as u128
    };
    let num: u128 = ma * 65536u128;
    let q: u128 = num / mb;
    proof {
        assert(ma == mag(a as int));
        assert(mb == mag(b as int));
        lemma_div_nonincreasing(num as int, mb as int);
    }
    if (a < 0) == (b < 0) {
        clip_i128(q as i128)
    } else {
        clip_i128(-(q as i128))
    }
}

/// Integer square root by bisection over `u128` values below 2^80.
fn isqrt(n: u128) -> (r: u64)
    requires
        n < 0x100000000000000000000,  // 2^80
    ensures
        r == isqrt_s(n as nat),
{
    let mut lo: u64 = 0;
    let mut hi: u64 = 0x10000000000;  // 2^40
    proof {
        assert((0x10000000000 as int) * (0x10000000000 as int) == 0x100000000000000000000);
    }
    while hi - lo > 1
        invariant
            lo < hi,
            hi <= 0x10000000000,
            (lo as int) * (lo as int) <= n,
            n < (hi as int) * (hi as int),
        decreases hi - lo,
    {
        let mid: u64 = lo + (hi - lo) / 2;
        proof {
            assert((mid as int) * (mid as int) < 0x100000000000000000000000000000000)
                by (nonlinear_arith)
                requires
                    0 <= mid <= 0x10000000000,
            ;
        }
        if (mid as u128) * (mid as u128) <= n {
            lo = mid;
        } else {
            hi = mid;
        }
    }
    proof {
        lemma_isqrt_unique(n as nat, lo as nat);
    }
    lo
}

/// Fixed-point square root: the result squared is at most `a * SCALE`
/// (the square of the exact root in fixed-point units), and the next
/// value up already overshoots.
pub fn fx_sqrt(a: i64) -> (r: i64)
    ensures
        r == fx_sqrt_s(a),
        a <= 0 ==> r == 0,
        a > 0 ==> 0 <= r && r * r <= a * SCALE < (r + 1) * (r + 1),
{
    if a <= 0 {
        return 0;
    }
    let n: u128 = a as u128 * 65536u128;
    let r: u64 = isqrt(n);
    proof {
        lemma_isqrt_bounds(n as nat);
        assert(isqrt_s(n as nat) < 0x10000000000) by (nonlinear_arith)
            requires
                isqrt_s(n as nat) * isqrt_s(n as nat) <= n as nat,
                n < 0x100000000000000000000,
        ;
    }
    r as i64
}

} // verus!
