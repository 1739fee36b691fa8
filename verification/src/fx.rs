//! Fixed-point scalars.
//!
//! A scalar is an `i64` holding `value * FX_ONE`. Every operation saturates
//! at `FX_MAX` (so no operation can overflow or panic) and rounds toward
//! zero, and each executable function returns exactly the value of its spec
//! mirror (`fx_add_s`, `fx_mul_s`, ...), so contracts further up can speak of
//! results to the last unit.

use vstd::prelude::*;

verus! {

/// The scalar one: values carry 24 fractional bits.
pub const FX_ONE: i64 = 16777216;

/// Largest representable magnitude (2^62); results are clamped to
/// [-FX_MAX, FX_MAX].
pub const FX_MAX: i64 = 4611686018427387904;

/// The scalar 2.
pub const TWO_FX: i64 = 33554432;

/// The scalar 3.
pub const THREE_FX: i64 = 50331648;

/// The scalar 4.
pub const FOUR_FX: i64 = 67108864;

/// The scalar 8.
pub const EIGHT_FX: i64 = 134217728;

/// The scalar 9.
pub const NINE_FX: i64 = 150994944;

/// The scalar 16.
pub const SIXTEEN_FX: i64 = 268435456;

/// The scalar 27.
pub const TWENTY_SEVEN_FX: i64 = 452984832;

/// The scalar 64.
pub const SIXTY_FOUR_FX: i64 = 1073741824;

/// The scalar 256.
pub const TWO_FIFTY_SIX_FX: i64 = 4294967296;

/// Truncating (round-toward-zero) division, total: division by zero is zero.
/// Stated via Euclidean `/` on non-negative operands only, so it matches
/// what machine division computes.
pub open spec fn tdiv(x: int, d: int) -> int {
    if d == 0 {
        0
    } else if x == 0 {
        0
    } else if x > 0 && d > 0 {
        x / d
    } else if x < 0 && d < 0 {
        (x * -1) / (d * -1)
    } else if x < 0 {
        ((x * -1) / d) * -1
    } else {
        (x / (d * -1)) * -1
    }
}

/// Clamp a mathematical integer into the representable range.
pub open spec fn sat(x: int) -> int {
    if x > FX_MAX as int {
        FX_MAX as int
    } else if x < -(FX_MAX as int) {
        -(FX_MAX as int)
    } else {
        x
    }
}

pub open spec fn fx_add_s(a: int, b: int) -> int {
    sat(a + b)
}

pub open spec fn fx_sub_s(a: int, b: int) -> int {
    sat(a - b)
}

pub open spec fn fx_neg_s(a: int) -> int {
    sat(-a)
}

/// Fixed-point product: the integer product carries 48 fractional bits,
/// dividing by FX_ONE brings it back to 24.
pub open spec fn fx_mul_s(a: int, b: int) -> int {
    sat(tdiv(a * b, FX_ONE as int))
}

/// Fixed-point quotient; a zero divisor yields zero.
pub open spec fn fx_div_s(a: int, b: int) -> int {
    sat(tdiv(a * FX_ONE, b))
}

pub open spec fn fx_abs_s(a: int) -> int {
    sat(if a < 0 { -a } else { a })
}

/// Truncating division is bounded by its dividend's magnitude.
proof fn lemma_tdiv_magnitude(x: int, d: int)
    ensures
        x >= 0 ==> -x <= tdiv(x, d) <= x,
        x < 0 ==> x <= tdiv(x, d) <= -x,
{
    if d == 0 || x == 0 {
    } else if x > 0 && d > 0 {
        vstd::arithmetic::div_mod::lemma_div_nonincreasing(x, d);
        vstd::arithmetic::div_mod::lemma_div_pos_is_pos(x, d);
    } else if x < 0 && d < 0 {
        vstd::arithmetic::div_mod::lemma_div_nonincreasing(-x, -d);
        vstd::arithmetic::div_mod::lemma_div_pos_is_pos(-x, -d);
    } else if x < 0 {
        vstd::arithmetic::div_mod::lemma_div_nonincreasing(-x, d);
        vstd::arithmetic::div_mod::lemma_div_pos_is_pos(-x, d);
    } else {
        vstd::arithmetic::div_mod::lemma_div_nonincreasing(x, -d);
        vstd::arithmetic::div_mod::lemma_div_pos_is_pos(x, -d);
    }
}

/// Machine truncating division on wide integers, total in the divisor.
fn tdiv_i128(x: i128, d: i128) -> (r: i128)
    requires
        x > i128::MIN,
    ensures
        r == tdiv(x as int, d as int),
{
    if d == 0 {
        0
    } else {
        proof {
            lemma_tdiv_magnitude(x as int, d as int);
        }
        x.checked_div(d).unwrap()
    }
}

/// Clamp a wide intermediate back into the scalar range.
fn sat_i128(x: i128) -> (r: i64)
    ensures
        r == sat(x as int),
{
    if x > FX_MAX as i128 {
        FX_MAX
    } else if x < -(FX_MAX as i128) {
        -FX_MAX
    } else {
        x as i64
    }
}

/// Saturating fixed-point sum.
pub fn fx_add(a: i64, b: i64) -> (r: i64)
    ensures
        r == fx_add_s(a as int, b as int),
{
    sat_i128(a as i128 + b as i128)
}

/// Saturating fixed-point difference.
pub fn fx_sub(a: i64, b: i64) -> (r: i64)
    ensures
        r == fx_sub_s(a as int, b as int),
{
    sat_i128(a as i128 - b as i128)
}

/// Saturating negation.
pub fn fx_neg(a: i64) -> (r: i64)
    ensures
        r == fx_neg_s(a as int),
{
    sat_i128(-(a as i128))
}

/// Saturating fixed-point product, rounded toward zero.
pub fn fx_mul(a: i64, b: i64) -> (r: i64)
    ensures
        r == fx_mul_s(a as int, b as int),
{
    proof {
        assert(-0x8000_0000_0000_0000_0000_0000_0000_0000 < (a as int) * (b as int)
            < 0x8000_0000_0000_0000_0000_0000_0000_0000) by (nonlinear_arith);
    }
    let p: i128 = (a as i128) * (b as i128);
    let q: i128 = tdiv_i128(p, FX_ONE as i128);
    sat_i128(q)
}

/// Saturating fixed-point quotient, rounded toward zero; zero divisor
/// yields zero.
pub fn fx_div(a: i64, b: i64) -> (r: i64)
    ensures
        r == fx_div_s(a as int, b as int),
{
    proof {
        assert(-0x8000_0000_0000_0000_0000_0000_0000_0000 < (a as int) * (FX_ONE as int)
            < 0x8000_0000_0000_0000_0000_0000_0000_0000) by (nonlinear_arith);
    }
    let p: i128 = (a as i128) * (FX_ONE as i128);
    let q: i128 = tdiv_i128(p, b as i128);
    sat_i128(q)
}

/// Truncating division is odd in its dividend.
pub proof fn lemma_tdiv_neg(x: int, d: int)
    ensures
        tdiv(-x, d) == -tdiv(x, d),
{
}

/// Negating one factor negates a saturated product.
pub proof fn lemma_fx_mul_neg(a: int, b: int)
    requires
        -(FX_MAX as int) <= b <= FX_MAX as int,
    ensures
        fx_mul_s(a, fx_neg_s(b)) == fx_neg_s(fx_mul_s(a, b)),
{
    assert(a * -b == -(a * b)) by (nonlinear_arith);
    lemma_tdiv_neg(a * b, FX_ONE as int);
}

/// A zero factor gives a zero product.
pub proof fn lemma_fx_mul_zero(a: int)
    ensures
        fx_mul_s(a, 0) == 0,
        fx_mul_s(0, a) == 0,
{
    assert(a * 0 == 0) by (nonlinear_arith);
    assert(0 * a == 0) by (nonlinear_arith);
}

/// A quotient of non-negative scalars is non-negative.
pub proof fn lemma_fx_div_sign(a: int, b: int)
    requires
        0 <= a,
        0 <= b,
    ensures
        0 <= fx_div_s(a, b),
{
    assert(0 <= a * FX_ONE) by (nonlinear_arith)
        requires
        0 <= a;
    if b != 0 && a * FX_ONE > 0 {
        vstd::arithmetic::div_mod::lemma_div_pos_is_pos(a * FX_ONE, b);
    }
}

/// A product of non-negative scalars is non-negative.
pub proof fn lemma_fx_mul_sign(a: int, b: int)
    requires
        0 <= a,
        0 <= b,
    ensures
        0 <= fx_mul_s(a, b),
{
    assert(0 <= a * b) by (nonlinear_arith)
        requires
        0 <= a && 0 <= b;
    if a * b > 0 {
        vstd::arithmetic::div_mod::lemma_div_pos_is_pos(a * b, FX_ONE as int);
    }
}

/// A product of scalars in [0, 1] stays in [0, 1] and under both factors.
pub proof fn lemma_fx_mul_unit(a: int, b: int)
    requires
        0 <= a <= FX_ONE,
        0 <= b <= FX_ONE,
    ensures
        0 <= fx_mul_s(a, b) <= FX_ONE,
        fx_mul_s(a, b) <= a,
        fx_mul_s(a, b) <= b,
{
    lemma_fx_mul_sign(a, b);
    assert(a * b <= (FX_ONE as int) * a && a * b <= (FX_ONE as int) * b) by (nonlinear_arith)
        requires
        0 <= a <= FX_ONE && 0 <= b <= FX_ONE;
    if a * b > 0 {
        vstd::arithmetic::div_mod::lemma_div_is_ordered(a * b, (FX_ONE as int) * a, FX_ONE as int);
        vstd::arithmetic::div_mod::lemma_div_is_ordered(a * b, (FX_ONE as int) * b, FX_ONE as int);
        vstd::arithmetic::div_mod::lemma_div_multiples_vanish(a, FX_ONE as int);
        vstd::arithmetic::div_mod::lemma_div_multiples_vanish(b, FX_ONE as int);
    }
}

/// Truncating integer division of scalars without rescaling; division by
/// zero is zero. The one quotient that cannot be represented is ruled out.
pub fn fx_tdiv(a: i64, b: i64) -> (r: i64)
    requires
        !(a == i64::MIN && b == -1),
    ensures
        r == tdiv(a as int, b as int),
{
    proof {
        lemma_tdiv_magnitude(a as int, b as int);
        if a == i64::MIN && b != 0 {
            if b == 1 {
                vstd::arithmetic::div_mod::lemma_div_basics(-(a as int));
            } else {
                let m = if b < 0 {
                    -(b as int)
                } else {
                    b as int
                };
                vstd::arithmetic::div_mod::lemma_div_decreases(-(a as int), m);
            }
        }
    }
    tdiv_i128(a as i128, b as i128) as i64
}

/// Floor of the square root of a natural number, defined by counting up.
pub open spec fn isqrt_s(n: nat) -> nat
    decreases n,
{
    if n == 0 {
        0
    } else {
        let r = isqrt_s((n - 1) as nat);
        if (r + 1) * (r + 1) <= n {
            r + 1
        } else {
            r
        }
    }
}

pub proof fn lemma_isqrt_bounds(n: nat)
    ensures
        isqrt_s(n) * isqrt_s(n) <= n,
        n < (isqrt_s(n) + 1) * (isqrt_s(n) + 1),
    decreases n,
{
    if n > 0 {
        lemma_isqrt_bounds((n - 1) as nat);
        let r = isqrt_s((n - 1) as nat);
        if (r + 1) * (r + 1) <= n {
            assert((r + 1) * (r + 1) < (r + 2) * (r + 2)) by (nonlinear_arith);
        }
    } else {
        assert((isqrt_s(n) + 1) * (isqrt_s(n) + 1) == 1) by (nonlinear_arith)
            requires
            isqrt_s(n) == 0;
    }
}

/// The floor square root is the only r with r^2 <= n < (r+1)^2.
pub proof fn lemma_isqrt_unique(n: nat, r: nat)
    requires
        r * r <= n,
        n < (r + 1) * (r + 1),
    ensures
        r == isqrt_s(n),
{
    lemma_isqrt_bounds(n);
    let s = isqrt_s(n);
    if r < s {
        assert((r + 1) * (r + 1) <= s * s) by (nonlinear_arith)
            requires
            r + 1 <= s;
    } else if s < r {
        assert((s + 1) * (s + 1) <= r * r) by (nonlinear_arith)
            requires
            s + 1 <= r;
    }
}

/// Fixed-point square root: floor(sqrt(a)) in scalar units; negative
/// arguments yield zero.
pub open spec fn fx_sqrt_s(a: int) -> int {
    if a < 0 {
        0
    } else {
        isqrt_s((a * FX_ONE) as nat) as int
    }
}

/// Floor of the cube root of a natural number, defined by counting up.
pub open spec fn icbrt_s(n: nat) -> nat
    decreases n,
{
    if n == 0 {
        0
    } else {
        let r = icbrt_s((n - 1) as nat);
        if (r + 1) * (r + 1) * (r + 1) <= n {
            r + 1
        } else {
            r
        }
    }
}

pub proof fn lemma_icbrt_bounds(n: nat)
    ensures
        icbrt_s(n) * icbrt_s(n) * icbrt_s(n) <= n,
        n < (icbrt_s(n) + 1) * (icbrt_s(n) + 1) * (icbrt_s(n) + 1),
    decreases n,
{
    if n > 0 {
        lemma_icbrt_bounds((n - 1) as nat);
        let r = icbrt_s((n - 1) as nat);
        if (r + 1) * (r + 1) * (r + 1) <= n {
            assert((r + 1) * (r + 1) * (r + 1) < (r + 2) * (r + 2) * (r + 2)) by (nonlinear_arith);
        }
    } else {
        assert((icbrt_s(n) + 1) * (icbrt_s(n) + 1) * (icbrt_s(n) + 1) == 1) by (nonlinear_arith)
            requires
            icbrt_s(n) == 0;
    }
}

/// The floor cube root is the only r with r^3 <= n < (r+1)^3.
pub proof fn lemma_icbrt_unique(n: nat, r: nat)
    requires
        r * r * r <= n,
        n < (r + 1) * (r + 1) * (r + 1),
    ensures
        r == icbrt_s(n),
{
    lemma_icbrt_bounds(n);
    let s = icbrt_s(n);
    if r < s {
        assert((r + 1) * (r + 1) * (r + 1) <= s * s * s) by (nonlinear_arith)
            requires
            r + 1 <= s;
    } else if s < r {
        assert((s + 1) * (s + 1) * (s + 1) <= r * r * r) by (nonlinear_arith)
            requires
            s + 1 <= r;
    }
}

/// Fixed-point cube root, rounded toward zero; odd in its argument, like the
/// real cube root.
pub open spec fn fx_cbrt_s(a: int) -> int {
    if a >= 0 {
        icbrt_s((a * FX_ONE * FX_ONE) as nat) as int
    } else {
        -(icbrt_s((-a * FX_ONE * FX_ONE) as nat) as int)
    }
}

/// Floor square root in scalar units: the result r satisfies
/// r^2 <= a * FX_ONE < (r+1)^2, so r is sqrt(a) with 24 fractional bits.
pub fn fx_sqrt(a: i64) -> (r: i64)
    ensures
        r == fx_sqrt_s(a as int),
        0 <= r <= 0x1000_0000_0000,
        a >= 0 ==> r * r <= a * FX_ONE && a * FX_ONE < (r + 1) * (r + 1),
{
    if a < 0 {
        return 0;
    }
    proof {
        assert((a as int) * (FX_ONE as int) < 0x1000_0000_0000 * 0x1000_0000_0000)
            by (nonlinear_arith)
            requires
            0 <= (a as int) && (a as int) < 0x8000_0000_0000_0000;
    }
    let n: u128 = (a as u128) * (FX_ONE as u128);
    let mut lo: u128 = 0;
    let mut hi: u128 = 0x1000_0000_0000;
    while lo + 1 < hi
        invariant
            lo * lo <= n as int,
            (n as int) < hi * hi,
            lo < hi <= 0x1000_0000_0000,
        decreases hi - lo,
    {
        let mid = lo + (hi - lo) / 2;
        proof {
            assert(mid * mid < 0x1000_0000_0000 * 0x1000_0000_0000) by (nonlinear_arith)
                requires
            0 <= mid < 0x1000_0000_0000;
        }
        if mid * mid <= n {
            lo = mid;
        } else {
            hi = mid;
        }
    }
    proof {
        lemma_isqrt_unique(n as nat, lo as nat);
    }
    lo as i64
}

/// Floor cube root in scalar units, rounded toward zero for negative
/// arguments: |r|^3 <= |a| * FX_ONE^2 < (|r|+1)^3.
pub fn fx_cbrt(a: i64) -> (r: i64)
    ensures
        r == fx_cbrt_s(a as int),
{
    let neg = a < 0;
    let mag: u128 = if a < 0 {
        (-(a as i128)) as u128
    } else {
        a as u128
    };
    proof {
        assert((mag as int) * (FX_ONE as int) <= 0x8000_0000_0000_0000 * 0x100_0000
            && (mag as int) * (FX_ONE as int) * (FX_ONE as int)
                < 0x20_0000_0001 * 0x20_0000_0001 * 0x20_0000_0001) by (nonlinear_arith)
            requires
            0 <= (mag as int) && (mag as int) <= 0x8000_0000_0000_0000;
    }
    let n: u128 = mag * (FX_ONE as u128) * (FX_ONE as u128);
    let mut lo: u128 = 0;
    let mut hi: u128 = 0x20_0000_0001;
    while lo + 1 < hi
        invariant
            lo * lo * lo <= n as int,
            (n as int) < hi * hi * hi,
            lo < hi <= 0x20_0000_0001,
        decreases hi - lo,
    {
        let mid = lo + (hi - lo) / 2;
        proof {
            assert(mid * mid <= 0x20_0000_0000 * 0x20_0000_0000
                && mid * mid * mid <= 0x20_0000_0000 * 0x20_0000_0000 * 0x20_0000_0000)
                by (nonlinear_arith)
                requires
            0 <= mid <= 0x20_0000_0000;
        }
        if mid * mid * mid <= n {
            lo = mid;
        } else {
            hi = mid;
        }
    }
    proof {
        lemma_icbrt_unique(n as nat, lo as nat);
    }
    if neg {
        -(lo as i64)
    } else {
        lo as i64
    }
}

/// Saturating absolute value.
pub fn fx_abs(a: i64) -> (r: i64)
    ensures
        r == fx_abs_s(a as int),
{
    if a < 0 {
        sat_i128(-(a as i128))
    } else {
        sat_i128(a as i128)
    }
}

} // verus!
