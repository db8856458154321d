//! Saturating fixed-point arithmetic on `i64` values scaled by `ONE`.
//!
//! A quantity `v` stands for the real number `v / 65536`.  Every operation
//! clamps its result into the `i64` range, so no executable function here
//! can overflow or panic; the spec functions state the exact value that
//! each operation produces, clamping included.

use vstd::prelude::*;

verus! {

use vstd::arithmetic::div_mod::{
    lemma_div_nonincreasing,
    lemma_div_pos_is_pos,
    lemma_div_multiples_vanish,
};

/// Number of fixed-point steps in 1.0.
pub const ONE: i64 = 65536;

/// Offset applied along a surface normal when a secondary ray is spawned,
/// about 0.001 world units; it keeps the new ray from immediately
/// re-hitting the surface it starts on.
pub const EPSILON: i64 = 66;

pub open spec fn sp_abs(x: int) -> int {
    if x < 0 {
        -x
    } else {
        x
    }
}

/// Every arithmetic result is brought back into the `i64` range.
pub open spec fn sp_clamp(x: int) -> int {
    if x < i64::MIN {
        i64::MIN as int
    } else if x > i64::MAX {
        i64::MAX as int
    } else {
        x
    }
}

/// Division truncating toward zero, the rounding used when scaling by `ONE`.
pub open spec fn sp_tdiv(n: int, d: int) -> int
    recommends
        d != 0,
{
    if (n < 0) == (d < 0) {
        sp_abs(n) / sp_abs(d)
    } else {
        -(sp_abs(n) / sp_abs(d))
    }
}

pub open spec fn sp_add(a: int, b: int) -> int {
    sp_clamp(a + b)
}

pub open spec fn sp_sub(a: int, b: int) -> int {
    sp_clamp(a - b)
}

pub open spec fn sp_neg(a: int) -> int {
    sp_clamp(-a)
}

/// Fixed-point product: `(a * b) / ONE`, truncated toward zero, clamped.
pub open spec fn sp_mul(a: int, b: int) -> int {
    sp_clamp(sp_tdiv(a * b, ONE as int))
}

/// Fixed-point quotient: `(a * ONE) / b`, truncated toward zero, clamped.
/// Division by zero yields 0, so the operation is total.
pub open spec fn sp_div(a: int, b: int) -> int {
    if b == 0 {
        0
    } else {
        sp_clamp(sp_tdiv(a * (ONE as int), b))
    }
}

pub open spec fn sp_max0(a: int) -> int {
    if a < 0 {
        0
    } else {
        a
    }
}

/// Integer square root: the greatest `r` with `r * r <= n` (0 for `n <= 0`).
pub open spec fn sp_isqrt(n: int) -> int
    decreases n,
{
    if n <= 0 {
        0
    } else {
        let r = sp_isqrt(n - 1);
        if (r + 1) * (r + 1) <= n {
            r + 1
        } else {
            r
        }
    }
}

/// Fixed-point square root: `isqrt(a * ONE)`, so that the result is again
/// scaled by `ONE`.  Nonpositive inputs yield 0.
pub open spec fn sp_sqrt(a: int) -> int {
    if a <= 0 {
        0
    } else {
        sp_isqrt(a * (ONE as int))
    }
}

/// Fixed-point power with a plain integer exponent: `sp_pow(b, 0) == ONE`.
pub open spec fn sp_pow(b: int, e: nat) -> int
    decreases e,
{
    if e == 0 {
        ONE as int
    } else {
        sp_mul(sp_pow(b, (e - 1) as nat), b)
    }
}

proof fn lemma_wide_product_in_range(a: int, b: int)
    by (nonlinear_arith)
    requires
        -0x8000_0000_0000_0000 <= a <= 0x7fff_ffff_ffff_ffff,
        -0x8000_0000_0000_0000 <= b <= 0x7fff_ffff_ffff_ffff,
    ensures
        -0x4000_0000_0000_0000_0000_0000_0000_0000 <= a * b,
        a * b <= 0x4000_0000_0000_0000_0000_0000_0000_0000,
{
}

fn clamp128(x: i128) -> (r: i64)
    ensures
        r as int == sp_clamp(x as int),
{
    if x > i64::MAX as i128 {
        i64::MAX
    } else if x < i64::MIN as i128 {
        i64::MIN
    } else {
        x as i64
    }
}

pub(crate) fn tdiv128(n: i128, d: i128) -> (r: i128)
    requires
        d != 0,
        i128::MIN < n,
        i128::MIN < d,
    ensures
        r as int == sp_tdiv(n as int, d as int),
        sp_abs(r as int) <= sp_abs(n as int),
{
    let nn: u128 = if n < 0 {
        (-n) as u128
    } else {
        n as u128
    };
    let dd: u128 = if d < 0 {
        (-d) as u128
    } else {
        d as u128
    };
    proof {
        lemma_div_nonincreasing(nn as int, dd as int);
        lemma_div_pos_is_pos(nn as int, dd as int);
    }
    let q: u128 = nn / dd;
    if (n < 0) != (d < 0) {
        -(q as i128)
    } else {
        q as i128
    }
}

pub fn fx_add(a: i64, b: i64) -> (r: i64)
    ensures
        r as int == sp_add(a as int, b as int),
{
    clamp128(a as i128 + b as i128)
}

pub fn fx_sub(a: i64, b: i64) -> (r: i64)
    ensures
        r as int == sp_sub(a as int, b as int),
{
    clamp128(a as i128 - b as i128)
}

pub fn fx_neg(a: i64) -> (r: i64)
    ensures
        r as int == sp_neg(a as int),
{
    clamp128(-(a as i128))
}

pub fn fx_mul(a: i64, b: i64) -> (r: i64)
    ensures
        r as int == sp_mul(a as int, b as int),
{
    proof {
        lemma_wide_product_in_range(a as int, b as int);
    }
    let p: i128 = (a as i128) * (b as i128);
    let q: i128 = tdiv128(p, 65536);
    clamp128(q)
}

pub fn fx_div(a: i64, b: i64) -> (r: i64)
    ensures
        r as int == sp_div(a as int, b as int),
{
    if b == 0 {
        0
    } else {
        proof {
            lemma_wide_product_in_range(a as int, 65536);
        }
        let p: i128 = (a as i128) * 65536;
        let q: i128 = tdiv128(p, b as i128);
        clamp128(q)
    }
}

pub fn fx_max0(a: i64) -> (r: i64)
    ensures
        r as int == sp_max0(a as int),
{
    if a < 0 {
        0
    } else {
        a
    }
}

proof fn lemma_isqrt_props(n: int)
    requires
        0 <= n,
    ensures
        0 <= sp_isqrt(n),
        sp_isqrt(n) * sp_isqrt(n) <= n,
        n < (sp_isqrt(n) + 1) * (sp_isqrt(n) + 1),
    decreases n,
{
    if n == 0 {
    } else {
        lemma_isqrt_props(n - 1);
        let r = sp_isqrt(n - 1);
        if (r + 1) * (r + 1) <= n {
            assert(n < ((r + 1) + 1) * ((r + 1) + 1)) by (nonlinear_arith)
                requires
                    0 <= r,
                    n - 1 < (r + 1) * (r + 1),
            {
            }
        }
    }
}

proof fn lemma_isqrt_unique(n: int, r: int)
    requires
        0 <= n,
        0 <= r,
        r * r <= n,
        n < (r + 1) * (r + 1),
    ensures
        r == sp_isqrt(n),
{
    lemma_isqrt_props(n);
    let s = sp_isqrt(n);
    if r < s {
        assert((r + 1) * (r + 1) <= s * s) by (nonlinear_arith)
            requires
                0 <= r,
                r + 1 <= s,
        {
        }
    } else if s < r {
        assert((s + 1) * (s + 1) <= r * r) by (nonlinear_arith)
            requires
                0 <= s,
                s + 1 <= r,
        {
        }
    }
}

pub fn fx_sqrt(a: i64) -> (r: i64)
    ensures
        r as int == sp_sqrt(a as int),
{
    if a <= 0 {
        return 0;
    }
    let n: u128 = (a as u128) * 65536;
    proof {
        assert(n < 0x100_0000_0000 * 0x100_0000_0000) by (nonlinear_arith)
            requires
                n == a * 65536,
                0 < a <= 0x7fff_ffff_ffff_ffff,
        {
        }
    }
    let mut lo: u128 = 0;
    let mut hi: u128 = 0x100_0000_0000;
    while hi - lo > 1
        invariant
            lo < hi,
            hi <= 0x100_0000_0000,
            lo * lo <= n,
            n < hi * hi,
        decreases hi - lo,
    {
        let mid: u128 = lo + (hi - lo) / 2;
        proof {
            assert(mid * mid <= 0x100_0000_0000 * 0x100_0000_0000) by (nonlinear_arith)
                requires
                    0 <= mid <= 0x100_0000_0000,
            {
            }
        }
        if mid * mid <= n {
            lo = mid;
        } else {
            hi = mid;
        }
    }
    proof {
        lemma_isqrt_unique(n as int, lo as int);
    }
    lo as i64
}

pub fn fx_pow(b: i64, e: u32) -> (r: i64)
    ensures
        r as int == sp_pow(b as int, e as nat),
{
    let mut acc: i64 = ONE;
    let mut i: u32 = 0;
    while i < e
        invariant
            i <= e,
            acc as int == sp_pow(b as int, i as nat),
        decreases e - i,
    {
        acc = fx_mul(acc, b);
        i = i + 1;
    }
    acc
}

/// Multiplying by zero yields zero, clamping included.
pub proof fn lemma_mul_zero(a: int)
    ensures
        sp_mul(a, 0) == 0,
{
    assert(a * 0 == 0) by (nonlinear_arith);
}

/// Multiplying an in-range value by `ONE` (the fixed-point 1.0) returns it
/// unchanged: the scaling division is exact.
pub proof fn lemma_mul_unit(a: int)
    requires
        i64::MIN <= a <= i64::MAX,
    ensures
        sp_mul(a, ONE as int) == a,
{
    if a >= 0 {
        lemma_div_multiples_vanish(a, ONE as int);
        assert(a * (ONE as int) == (ONE as int) * a) by (nonlinear_arith);
    } else {
        lemma_div_multiples_vanish(-a, ONE as int);
        assert(-(a * (ONE as int)) == (ONE as int) * (-a)) by (nonlinear_arith);
    }
}

} // verus!
