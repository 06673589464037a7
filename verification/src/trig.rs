//! Fixed-point trigonometry.
//!
//! The renderer needs the tangent of half the field of view and, for
//! spherical texture mapping, the arc tangent and arc cosine.  Sine and
//! cosine are truncated Taylor series; the arc tangent uses a quadratic
//! polynomial approximation.  The functions are total, and each executable
//! function computes exactly the value of its `_s` spec counterpart — the
//! series themselves are the model.

use crate::fixed::{
    fx_abs, fx_abs_s, fx_add, fx_add_s, fx_div, fx_div_s, fx_mul, fx_mul_s, fx_neg, fx_neg_s,
    fx_sqrt, fx_sqrt_s, fx_sub, fx_sub_s, mag, SCALE,
};
use vstd::prelude::*;

verus! {

/// Fixed-point value of pi.
pub const PI_FX: i64 = 205887;

/// Fixed-point value of pi / 2.
pub const HALF_PI_FX: i64 = 102944;

/// Fixed-point value of pi / 4.
pub const QUARTER_PI_FX: i64 = 51472;

/// Fixed-point value of 4 * pi.
pub const FOUR_PI_FX: i64 = 823550;

/// Fixed-point value of pi / 360: degrees to radians of the half angle.
pub const HALF_DEG_TO_RAD_FX: i64 = 572;

/// Sine by a Taylor series with four terms, for arguments within about
/// half a turn of zero.
pub open spec fn sin_s(x: i64) -> i64 {
    let x2 = fx_mul_s(x, x);
    let x3 = fx_mul_s(x2, x);
    let x5 = fx_mul_s(x3, x2);
    let x7 = fx_mul_s(x5, x2);
    fx_add_s(
        fx_sub_s(x, fx_div_s(x3, 393216)),
        fx_sub_s(fx_div_s(x5, 7864320), fx_div_s(x7, 330301440)),
    )
}

/// Cosine by a Taylor series with four terms.
pub open spec fn cos_s(x: i64) -> i64 {
    let x2 = fx_mul_s(x, x);
    let x4 = fx_mul_s(x2, x2);
    let x6 = fx_mul_s(x4, x2);
    fx_add_s(
        fx_sub_s(SCALE, fx_div_s(x2, 131072)),
        fx_sub_s(fx_div_s(x4, 1572864), fx_div_s(x6, 47185920)),
    )
}

/// Tangent as the ratio of the sine and cosine series.
pub open spec fn tan_s(x: i64) -> i64 {
    fx_div_s(sin_s(x), cos_s(x))
}

/// Arc tangent for arguments of magnitude at most one, by a quadratic
/// polynomial approximation.
pub open spec fn atan_unit_s(z: i64) -> i64 {
    let a = fx_abs_s(z);
    fx_add_s(
        fx_mul_s(QUARTER_PI_FX, z),
        fx_mul_s(fx_mul_s(z, fx_sub_s(SCALE, a)), fx_add_s(16037, fx_mul_s(4345, a))),
    )
}

/// Quadrant-aware arc tangent of `y / x`; zero when both arguments are zero.
pub open spec fn atan2_s(y: i64, x: i64) -> i64 {
    if mag(y as int) <= mag(x as int) {
        if x == 0 {
            0
        } else {
            let base = atan_unit_s(fx_div_s(y, x));
            if x > 0 {
                base
            } else if y >= 0 {
                fx_add_s(base, PI_FX)
            } else {
                fx_sub_s(base, PI_FX)
            }
        }
    } else {
        let base = atan_unit_s(fx_div_s(x, y));
        if y > 0 {
            fx_sub_s(HALF_PI_FX, base)
        } else {
            fx_sub_s(fx_neg_s(HALF_PI_FX), base)
        }
    }
}

/// Arc cosine on `-1 ..= 1` (arguments outside are saturated first),
/// ranging from pi down to zero.
pub open spec fn acos_s(t: i64) -> i64 {
    let tc = if t > SCALE {
        SCALE
    } else if t < -SCALE {
        (-SCALE) as i64
    } else {
        t
    };
    let s = fx_sqrt_s(fx_sub_s(SCALE, fx_mul_s(tc, tc)));
    atan2_s(s, tc)
}

/// Sine of a fixed-point angle in radians.
pub fn sin(x: i64) -> (r: i64)
    ensures
        r == sin_s(x),
{
    let x2: i64 = fx_mul(x, x);
    let x3: i64 = fx_mul(x2, x);
    let x5: i64 = fx_mul(x3, x2);
    let x7: i64 = fx_mul(x5, x2);
    fx_add(
        fx_sub(x, fx_div(x3, 393216)),
        fx_sub(fx_div(x5, 7864320), fx_div(x7, 330301440)),
    )
}

/// Cosine of a fixed-point angle in radians.
pub fn cos(x: i64) -> (r: i64)
    ensures
        r == cos_s(x),
{
    let x2: i64 = fx_mul(x, x);
    let x4: i64 = fx_mul(x2, x2);
    let x6: i64 = fx_mul(x4, x2);
    fx_add(
        fx_sub(SCALE, fx_div(x2, 131072)),
        fx_sub(fx_div(x4, 1572864), fx_div(x6, 47185920)),
    )
}

/// Tangent of a fixed-point angle in radians.
pub fn tan(x: i64) -> (r: i64)
    ensures
        r == tan_s(x),
{
    fx_div(sin(x), cos(x))
}

/// Arc tangent for arguments of magnitude at most one.
fn atan_unit(z: i64) -> (r: i64)
    ensures
        r == atan_unit_s(z),
{
    let a: i64 = fx_abs(z);
    fx_add(
        fx_mul(QUARTER_PI_FX, z),
        fx_mul(fx_mul(z, fx_sub(SCALE, a)), fx_add(16037, fx_mul(4345, a))),
    )
}

/// Quadrant-aware arc tangent of `y / x`.
pub fn atan2(y: i64, x: i64) -> (r: i64)
    ensures
        r == atan2_s(y, x),
{
    let y_larger: bool = mag_gt(y, x);
    if !y_larger {
        if x == 0 {
            0
        } else {
            let base: i64 = atan_unit(fx_div(y, x));
            if x > 0 {
                base
            } else if y >= 0 {
                fx_add(base, PI_FX)
            } else {
                fx_sub(base, PI_FX)
            }
        }
    } else {
        let base: i64 = atan_unit(fx_div(x, y));
        if y > 0 {
            fx_sub(HALF_PI_FX, base)
        } else {
            fx_sub(fx_neg(HALF_PI_FX), base)
        }
    }
}

/// Whether `y` has strictly larger magnitude than `x`, exact even at
/// `i64::MIN`.
fn mag_gt(y: i64, x: i64) -> (r: bool)
    ensures
        r == (mag(y as int) > mag(x as int)),
{
    let my: u64 = if y < 0 {
        (-(y as i128)) as u64
    } else {
        y as u64
    };
    let mx: u64 = if x < 0 {
        (-(x as i128)) as u64
    } else {
        x as u64
    };
    my > mx
}

/// Arc cosine on `-1 ..= 1`.
pub fn acos(t: i64) -> (r: i64)
    ensures
        r == acos_s(t),
{
    let tc: i64 = if t > SCALE {
        SCALE
    } else if t < -SCALE {
        -SCALE
    } else {
        t
    };
    let s: i64 = fx_sqrt(fx_sub(SCALE, fx_mul(tc, tc)));
    atan2(s, tc)
}

} // verus!
