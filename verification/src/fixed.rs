//! Saturating fixed-point scalars: every quantity in the renderer is an `i64`
//! counted in units of `1 / FX_ONE`, and every operation truncates toward zero
//! and saturates at the ends of the `i64` range.

use vstd::prelude::*;

verus! {

/// One whole unit; a raw value `a` stands for the quantity `a / FX_ONE`.
pub const FX_ONE: i64 = 65536;

/// One half, in raw units.
pub const FX_HALF: i64 = 32768;

/// Three halves, in raw units: the absorption radius is `3/2` times the mass.
pub const FX_THREE_HALVES: i64 = 98304;

/// Two, in raw units.
pub const FX_TWO: i64 = 131072;

/// Nine tenths, in raw units: the safety factor on a distance budget.
pub const FX_NINE_TENTHS: i64 = 58982;

/// Clamp an unbounded integer into the representable range.
pub open spec fn clip(x: int) -> i64 {
    if x > i64::MAX {
        i64::MAX
    } else if x < i64::MIN {
        i64::MIN
    } else {
        x as i64
    }
}

/// Division truncating toward zero, as the machine divides; meaningful for `b > 0`.
pub open spec fn tdiv(a: int, b: int) -> int {
    if a >= 0 {
        a / b
    } else {
        -((-a) / b)
    }
}

pub open spec fn spec_add(a: i64, b: i64) -> i64 {
    clip(a + b)
}

pub open spec fn spec_sub(a: i64, b: i64) -> i64 {
    clip(a - b)
}

pub open spec fn spec_neg(a: i64) -> i64 {
    clip(-a)
}

/// Fixed-point product: `(a * b) / FX_ONE`, truncated and saturated.
pub open spec fn spec_mul(a: i64, b: i64) -> i64 {
    clip(tdiv(a * b, FX_ONE as int))
}

/// Fixed-point quotient: `(a * FX_ONE) / b`, truncated and saturated; meaningful for `b > 0`.
pub open spec fn spec_div(a: i64, b: i64) -> i64 {
    clip(tdiv(a * FX_ONE, b as int))
}

/// Division of a fixed-point value by a plain integer count.
pub open spec fn spec_div_int(a: i64, k: i64) -> i64 {
    clip(tdiv(a as int, k as int))
}

/// Saturating absolute value.
pub open spec fn spec_abs(a: i64) -> i64 {
    if a < 0 {
        clip(-a)
    } else {
        a
    }
}

/// `r` is the integer square root of `n`, rounded down.
pub open spec fn is_sqrt_floor(n: int, r: int) -> bool {
    &&& 0 <= r
    &&& r * r <= n
    &&& n < (r + 1) * (r + 1)
}

/// The integer square root, rounded down; meaningful for `n >= 0`.
pub open spec fn sqrt_floor(n: int) -> int {
    choose|r: int| is_sqrt_floor(n, r)
}

/// Square root of a fixed-point value: `sqrt(a / FX_ONE)` is
/// `sqrt(a * FX_ONE)` in raw units. Meaningful for `a >= 0`.
pub open spec fn spec_sqrt(a: i64) -> i64 {
    sqrt_floor(a * FX_ONE) as i64
}

proof fn lemma_sqrt_exists(n: nat)
    ensures
        exists|r: int| is_sqrt_floor(n as int, r),
    decreases n,
{
    if n == 0 {
        assert(is_sqrt_floor(0, 0));
    } else {
        lemma_sqrt_exists((n - 1) as nat);
        let m: int = n as int - 1;
        let r = choose|r: int| is_sqrt_floor(m, r);
        if (r + 1) * (r + 1) <= n {
            assert(is_sqrt_floor(n as int, r + 1)) by (nonlinear_arith)
                requires
                    is_sqrt_floor(n as int - 1, r),
                    (r + 1) * (r + 1) <= n,
            ;
        } else {
            assert(is_sqrt_floor(n as int, r));
        }
    }
}

/// Two integers that both satisfy the square-root bounds for `n` are equal.
pub proof fn lemma_sqrt_unique(n: int, r1: int, r2: int)
    requires
        is_sqrt_floor(n, r1),
        is_sqrt_floor(n, r2),
    ensures
        r1 == r2,
{
    assert(r1 == r2) by (nonlinear_arith)
        requires
            0 <= r1,
            0 <= r2,
            r1 * r1 <= n,
            n < (r1 + 1) * (r1 + 1),
            r2 * r2 <= n,
            n < (r2 + 1) * (r2 + 1),
    ;
}

/// `sqrt_floor` meets its own bounds whenever `n` is not negative.
pub proof fn lemma_sqrt_floor(n: int)
    requires
        n >= 0,
    ensures
        is_sqrt_floor(n, sqrt_floor(n)),
{
    lemma_sqrt_exists(n as nat);
}

/// The square root rounded down never decreases.
pub proof fn lemma_sqrt_monotone(n: int, m: int)
    requires
        0 <= n <= m,
    ensures
        sqrt_floor(n) <= sqrt_floor(m),
{
    lemma_sqrt_floor(n);
    lemma_sqrt_floor(m);
    let rn = sqrt_floor(n);
    let rm = sqrt_floor(m);
    assert(rn <= rm) by (nonlinear_arith)
        requires
            0 <= rn,
            0 <= rm,
            rn * rn <= n,
            n < (rn + 1) * (rn + 1),
            rm * rm <= m,
            m < (rm + 1) * (rm + 1),
            n <= m,
    ;
}

/// Truncating division by a positive value keeps symmetric bounds.
pub proof fn lemma_tdiv_sym_bound(p: int, b: int, m: int)
    requires
        b > 0,
        0 <= m,
        -(m * b) <= p <= m * b,
    ensures
        -m <= tdiv(p, b) <= m,
{
    if p >= 0 {
        vstd::arithmetic::div_mod::lemma_div_is_ordered(p, m * b, b);
        vstd::arithmetic::div_mod::lemma_div_by_multiple(m, b);
        vstd::arithmetic::div_mod::lemma_div_pos_is_pos(p, b);
    } else {
        vstd::arithmetic::div_mod::lemma_div_is_ordered(-p, m * b, b);
        vstd::arithmetic::div_mod::lemma_div_by_multiple(m, b);
        vstd::arithmetic::div_mod::lemma_div_pos_is_pos(-p, b);
    }
}

/// A fixed-point product of non-negative values is non-negative.
pub proof fn lemma_spec_mul_nonneg(a: i64, k: i64)
    requires
        a >= 0,
        k >= 0,
    ensures
        spec_mul(a, k) >= 0,
{
    assert(a * k >= 0) by (nonlinear_arith)
        requires
            a >= 0,
            k >= 0,
    ;
    vstd::arithmetic::div_mod::lemma_div_pos_is_pos(a * k, FX_ONE as int);
}

/// The fixed-point square root of an in-range value is itself in range.
pub proof fn lemma_spec_sqrt_bounds(a: i64)
    requires
        a >= 0,
    ensures
        0 <= spec_sqrt(a) < 0x10000000000,
        is_sqrt_floor(a * FX_ONE, spec_sqrt(a) as int),
{
    let n: int = a * FX_ONE;
    lemma_sqrt_floor(n);
    let r = sqrt_floor(n);
    assert(r < 0x10000000000) by (nonlinear_arith)
        requires
            0 <= r,
            r * r <= n,
            n < 0x100000000000000000000,
    ;
}

fn clamp_wide(x: i128) -> (r: i64)
    ensures
        r == clip(x as int),
{
    if x > i64::MAX as i128 {
        i64::MAX
    } else if x < i64::MIN as i128 {
        i64::MIN
    } else {
        x as i64
    }
}

/// Saturating addition.
pub fn fx_add(a: i64, b: i64) -> (r: i64)
    ensures
        r == spec_add(a, b),
{
    clamp_wide(a as i128 + b as i128)
}

/// Saturating subtraction.
pub fn fx_sub(a: i64, b: i64) -> (r: i64)
    ensures
        r == spec_sub(a, b),
{
    clamp_wide(a as i128 - b as i128)
}

/// Saturating negation.
pub fn fx_neg(a: i64) -> (r: i64)
    ensures
        r == spec_neg(a),
{
    if a == i64::MIN {
        i64::MAX
    } else {
        -a
    }
}

/// Saturating absolute value.
pub fn fx_abs(a: i64) -> (r: i64)
    ensures
        r == spec_abs(a),
        r >= 0,
{
    if a == i64::MIN {
        i64::MAX
    } else if a < 0 {
        -a
    } else {
        a
    }
}

/// Fixed-point product.
pub fn fx_mul(a: i64, b: i64) -> (r: i64)
    ensures
        r == spec_mul(a, b),
{
    let a_wide: i128 = a as i128;
    let b_wide: i128 = b as i128;
    proof {
        assert(-0x40000000000000000000000000000000 <= a_wide * b_wide
            <= 0x40000000000000000000000000000000) by (nonlinear_arith)
            requires
                -0x8000000000000000 <= a_wide <= 0x7fffffffffffffff,
                -0x8000000000000000 <= b_wide <= 0x7fffffffffffffff,
        ;
    }
    let p: i128 = a_wide * b_wide;
    clamp_wide(p / 65536)
}

/// Fixed-point quotient by a positive value.
pub fn fx_div(a: i64, b: i64) -> (r: i64)
    requires
        b > 0,
    ensures
        r == spec_div(a, b),
{
    let p: i128 = (a as i128) * 65536;
    clamp_wide(p / (b as i128))
}

/// Division of a fixed-point value by a positive plain count.
pub fn fx_div_int(a: i64, k: i64) -> (r: i64)
    requires
        k > 0,
    ensures
        r == spec_div_int(a, k),
{
    clamp_wide((a as i128) / (k as i128))
}

/// Integer square root, rounded down.
pub fn isqrt(n: u128) -> (r: u128)
    ensures
        is_sqrt_floor(n as int, r as int),
{
    if n == 0 {
        return 0;
    }
    let mut lo: u128 = 0;
    let mut hi: u128 = 0x10000000000000000;
    while lo + 1 < hi
        invariant
            lo < hi,
            hi <= 0x10000000000000000,
            lo * lo <= n,
            n < hi * hi,
        decreases hi - lo,
    {
        let mid: u128 = lo + (hi - lo) / 2;
        assert(lo < mid < hi);
        proof {
            assert(mid * mid <= 0xffffffffffffffffffffffffffffffff) by (nonlinear_arith)
                requires
                    mid <= 0xffffffffffffffff,
            ;
        }
        if mid * mid <= n {
            lo = mid;
        } else {
            hi = mid;
        }
    }
    assert(hi == lo + 1);
    lo
}

/// Square root of a non-negative fixed-point value.
pub fn fx_sqrt(a: i64) -> (r: i64)
    requires
        a >= 0,
    ensures
        r == spec_sqrt(a),
        r >= 0,
        is_sqrt_floor(a * FX_ONE, r as int),
{
    let n: u128 = (a as u128) * 65536;
    let s: u128 = isqrt(n);
    proof {
        lemma_sqrt_floor(n as int);
        lemma_sqrt_unique(n as int, s as int, sqrt_floor(n as int));
        assert(s * s <= n);
        assert(n < 0x100000000000000000000);
        assert(s < 0x10000000000) by (nonlinear_arith)
            requires
                s * s <= n,
                n < 0x100000000000000000000,
        ;
    }
    s as i64
}

} // verus!
