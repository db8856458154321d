//! Fixed-point circular functions for the environment-map lookup.
//!
//! `fx_atan2` and `fx_acos` use the classic quarter-circle polynomial
//! `atan(z) ~ (pi/4)z + 0.273 z (1 - z)` on `[0, 1]`, folded over the
//! quadrants; the transcendental functions have no exact fixed-point value,
//! so the spec functions define the library's angle measure outright.  On
//! the coordinate axes the definitions are exact: `sp_atan2(0, x) == 0` for
//! `x >= 0`, `sp_atan2(y, 0) == ±FX_HALF_PI`, `sp_acos(0) == FX_HALF_PI`,
//! `sp_acos(ONE) == 0` and `sp_acos(-ONE) == FX_PI`.

use vstd::prelude::*;

verus! {

use crate::fixed::{
    ONE, sp_abs, sp_clamp, sp_add, sp_sub, sp_mul, sp_div, sp_sqrt, sp_neg,
    fx_add, fx_sub, fx_mul, fx_div, fx_sqrt, fx_neg,
};

/// Half turn, in fixed-point radians (pi scaled by `ONE`, rounded to an
/// even value so that the quarter- and half-angle constants are exact).
pub const FX_PI: i64 = 205888;

/// Full turn: `2 * FX_PI`.
pub const FX_TWO_PI: i64 = 411776;

/// Quarter turn: `FX_PI / 2`.
pub const FX_HALF_PI: i64 = 102944;

/// Eighth turn: `FX_PI / 4`.
pub const FX_QUARTER_PI: i64 = 51472;

/// The polynomial's correction weight, 0.273 scaled by `ONE`.
pub const ATAN_COEFF: i64 = 17892;

/// Absolute value, clamped into the `i64` range.
pub open spec fn sp_fabs(x: int) -> int {
    sp_clamp(sp_abs(x))
}

/// The quarter-circle arctangent polynomial, for `z` in `[0, ONE]`.
pub open spec fn sp_atan_poly(z: int) -> int {
    sp_add(
        sp_mul(FX_QUARTER_PI as int, z),
        sp_mul(sp_mul(ATAN_COEFF as int, z), sp_sub(ONE as int, z)),
    )
}

/// Angle of the point `(x, y)` from the positive x axis, in
/// `[-FX_PI, FX_PI]`; `sp_atan2(0, 0) == 0`.
pub open spec fn sp_atan2(y: int, x: int) -> int {
    let ax = sp_fabs(x);
    let ay = sp_fabs(y);
    let octant = if ay <= ax {
        sp_atan_poly(sp_div(ay, ax))
    } else {
        sp_sub(FX_HALF_PI as int, sp_atan_poly(sp_div(ax, ay)))
    };
    let quadrant = if x >= 0 {
        octant
    } else {
        sp_sub(FX_PI as int, octant)
    };
    if y >= 0 {
        quadrant
    } else {
        sp_neg(quadrant)
    }
}

/// Arc cosine of a fixed-point value, via `atan2(sqrt(1 - d*d), d)`;
/// inputs at or beyond ±1 yield the exact endpoint angles.
pub open spec fn sp_acos(d: int) -> int {
    if d >= ONE as int {
        0
    } else if d <= -(ONE as int) {
        FX_PI as int
    } else {
        sp_atan2(sp_sqrt(sp_sub(ONE as int, sp_mul(d, d))), d)
    }
}

pub fn fx_abs(a: i64) -> (r: i64)
    ensures
        r as int == sp_fabs(a as int),
{
    if a < 0 {
        if a == i64::MIN {
            i64::MAX
        } else {
            -a
        }
    } else {
        a
    }
}

fn fx_atan_poly(z: i64) -> (r: i64)
    ensures
        r as int == sp_atan_poly(z as int),
{
    fx_add(fx_mul(FX_QUARTER_PI, z), fx_mul(fx_mul(ATAN_COEFF, z), fx_sub(ONE, z)))
}

pub fn fx_atan2(y: i64, x: i64) -> (r: i64)
    ensures
        r as int == sp_atan2(y as int, x as int),
{
    let ax = fx_abs(x);
    let ay = fx_abs(y);
    let octant = if ay <= ax {
        fx_atan_poly(fx_div(ay, ax))
    } else {
        fx_sub(FX_HALF_PI, fx_atan_poly(fx_div(ax, ay)))
    };
    let quadrant = if x >= 0 {
        octant
    } else {
        fx_sub(FX_PI, octant)
    };
    if y >= 0 {
        quadrant
    } else {
        fx_neg(quadrant)
    }
}

pub fn fx_acos(d: i64) -> (r: i64)
    ensures
        r as int == sp_acos(d as int),
{
    if d >= ONE {
        0
    } else if d <= -ONE {
        FX_PI
    } else {
        fx_atan2(fx_sqrt(fx_sub(ONE, fx_mul(d, d))), d)
    }
}

} // verus!
