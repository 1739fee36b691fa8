//! The exact algebra behind the solvers, the rotations and the shading.
//!
//! The executable solvers necessarily round: their contracts pin each
//! result to the last unit, and the identities here show that the formulas
//! those contracts mirror are the right ones over exact arithmetic. Each
//! law is stated over unbounded integers with denominators cleared, so it
//! speaks of the real-number computation the fixed-point code
//! approximates.

use vstd::prelude::*;

use crate::color::color_add_s;
use crate::color::color_mul_s;
use crate::color::color_scale_s;
use crate::fx::fx_div_s;
use crate::fx::fx_mul_s;
use crate::fx::lemma_fx_mul_zero;
use crate::trace::K_DIFFUSE;

verus! {

/// The quadratic formula annihilates its quadratic: if s is a square root
/// of the discriminant b^2 - 4ac, then x = (-b +- s) / (2a) satisfies
/// a x^2 + b x + c = 0. Stated with the denominator (2a)^2 cleared, so no
/// division is needed: the left-hand sides are 4a times the quadratic at
/// the two roots.
pub proof fn lemma_quadratic_formula(a: int, b: int, c: int, s: int)
    requires
        s * s == b * b - 4 * a * c,
    ensures
        (-b + s) * (-b + s) + 2 * b * (-b + s) + 4 * a * c == 0,
        (-b - s) * (-b - s) + 2 * b * (-b - s) + 4 * a * c == 0,
{
    assert((-b + s) * (-b + s) + 2 * b * (-b + s) + 4 * a * c == 0) by (nonlinear_arith)
        requires
        s * s == b * b - 4 * a * c;
    assert((-b - s) * (-b - s) + 2 * b * (-b - s) + 4 * a * c == 0) by (nonlinear_arith)
        requires
        s * s == b * b - 4 * a * c;
}

/// Cardano's real root annihilates the depressed cubic: if s^3 + u^3 = -g
/// and 3su = -f, then x = s + u satisfies x^3 + f x + g = 0.
pub proof fn lemma_depressed_cubic_root(f: int, g: int, s: int, u: int)
    requires
        s * s * s + u * u * u == -g,
        3 * (s * u) == -f,
    ensures
        (s + u) * (s + u) * (s + u) + f * (s + u) + g == 0,
{
    assert((s + u) * (s + u) * (s + u) + f * (s + u) + g == 0) by (nonlinear_arith)
        requires
        s * s * s + u * u * u == -g && 3 * (s * u) == -f;
}

/// Cardano's conjugate pair annihilates the depressed cubic: under the
/// same premises, the complex number with real part -(s + u)/2 and squared
/// imaginary part 3(s - u)^2 / 4 is a root of y^3 + f y + g. Stated over
/// the doubled real part r2 and the quadrupled squared imaginary part m4:
/// the first conclusion makes the imaginary part of the cubic at the root
/// vanish, the second its real part (scaled by 8).
pub proof fn lemma_depressed_cubic_conjugate_pair(f: int, g: int, s: int, u: int, r2: int, m4: int)
    requires
        s * s * s + u * u * u == -g,
        3 * (s * u) == -f,
        r2 == -(s + u),
        m4 == 3 * ((s - u) * (s - u)),
    ensures
        3 * (r2 * r2) + 4 * f == m4,
        r2 * r2 * r2 - 3 * (r2 * m4) + 4 * (f * r2) + 8 * g == 0,
{
    assert(3 * (r2 * r2) + 4 * f == m4) by (nonlinear_arith)
        requires
        3 * (s * u) == -f && r2 == -(s + u) && m4 == 3 * ((s - u) * (s - u));
    assert(r2 * r2 * r2 - 3 * (r2 * m4) + 4 * (f * r2) + 8 * g == 0) by (nonlinear_arith)
        requires
        s * s * s + u * u * u == -g && 3 * (s * u) == -f && r2 == -(s + u) && m4 == 3 * ((s - u) * (
        s - u));
}

/// The product of the two quadratic factors Ferrari's method builds:
/// (x^2 - 2px + u1)(x^2 + 2px + u2), expanded.
proof fn lemma_two_quadratics(x: int, p: int, u1: int, u2: int)
    ensures
        (x * x - 2 * (p * x) + u1) * (x * x + 2 * (p * x) + u2) == (x * x) * (x * x) + (u1 + u2 - 4
            * (p * p)) * (x * x) + (2 * (p * (u1 - u2))) * x + u1 * u2,
{
    broadcast use vstd::arithmetic::mul::group_mul_is_commutative_and_distributive;

    assert((x * x - 2 * (p * x) + u1) * (x * x + 2 * (p * x) + u2) == (x * x) * (x * x) + (u1 + u2
        - 4 * (p * p)) * (x * x) + (2 * (p * (u1 - u2))) * x + u1 * u2) by {
        assert((2 * (p * x)) * (2 * (p * x)) == 4 * (p * p) * (x * x)) by (nonlinear_arith);
        assert((x * x) * (2 * (p * x)) == (2 * (p * x)) * (x * x)) by (nonlinear_arith);
        assert(u1 * (2 * (p * x)) == (2 * (p * u1)) * x) by (nonlinear_arith);
        assert((2 * (p * x)) * u2 == (2 * (p * u2)) * x) by (nonlinear_arith);
    }
}

/// Ferrari's four sign combinations annihilate the depressed quartic they
/// generate: for any p, q, r, each of (p + q + r), (p - q - r),
/// (-p + q - r) and (-p - q + r) is a root of x^4 + f x^2 + g x + h with
/// f = -2(p^2 + q^2 + r^2), g = -8pqr and h = (p^2 - q^2 - r^2)^2 -
/// 4 q^2 r^2. The proof factors the quartic into the two quadratics whose
/// roots the sign combinations are.
pub proof fn lemma_quartic_sign_roots(p: int, q: int, r: int, x: int)
    requires
        x == p + q + r || x == p - q - r || x == -p + q - r || x == -p - q + r,
    ensures
        (x * x) * (x * x) + (-2 * (p * p + q * q + r * r)) * (x * x) + (-8 * (p * (q * r))) * x + (
        (p * p - q * q - r * r) * (p * p - q * q - r * r) - 4 * ((q * q) * (r * r))) == 0,
{
    let u1 = p * p - (q + r) * (q + r);
    let u2 = p * p - (q - r) * (q - r);
    lemma_two_quadratics(x, p, u1, u2);
    assert(u1 + u2 - 4 * (p * p) == -2 * (p * p + q * q + r * r)) by (nonlinear_arith)
        requires
        u1 == p * p - (q + r) * (q + r) && u2 == p * p - (q - r) * (q - r);
    assert(2 * (p * (u1 - u2)) == -8 * (p * (q * r))) by (nonlinear_arith)
        requires
        u1 == p * p - (q + r) * (q + r) && u2 == p * p - (q - r) * (q - r);
    assert(u1 * u2 == (p * p - q * q - r * r) * (p * p - q * q - r * r) - 4 * ((q * q) * (r * r)))
        by (nonlinear_arith)
        requires
        u1 == p * p - (q + r) * (q + r) && u2 == p * p - (q - r) * (q - r);
    if x == p + q + r || x == p - q - r {
        assert(x * x - 2 * (p * x) + u1 == 0) by (nonlinear_arith)
            requires
            (x == p + q + r || x == p - q - r) && u1 == p * p - (q + r) * (q + r);
        assert((x * x - 2 * (p * x) + u1) * (x * x + 2 * (p * x) + u2) == 0) by (nonlinear_arith)
            requires
            x * x - 2 * (p * x) + u1 == 0;
    } else {
        assert(x * x + 2 * (p * x) + u2 == 0) by (nonlinear_arith)
            requires
            (x == -p + q - r || x == -p - q + r) && u2 == p * p - (q - r) * (q - r);
        assert((x * x - 2 * (p * x) + u1) * (x * x + 2 * (p * x) + u2) == 0) by (nonlinear_arith)
            requires
            x * x + 2 * (p * x) + u2 == 0;
    }
}

/// The resolvent cubic justifies Ferrari's choice of p, q, r: if z1, z2,
/// z3 obey the scaled resolvent's Vieta relations for a depressed quartic
/// with coefficients f, g, h, and 4p^2 = z1, 4q^2 = z2 with p, q nonzero,
/// and r satisfies 8pqr = -g, then f, g, h are exactly the coefficients
/// that `lemma_quartic_sign_roots` builds from p, q, r — so the four sign
/// combinations are roots of the depressed quartic.
pub proof fn lemma_quartic_resolvent(
    f: int,
    g: int,
    h: int,
    z1: int,
    z2: int,
    z3: int,
    p: int,
    q: int,
    r: int,
)
    requires
        z1 + z2 + z3 == -2 * f,
        z1 * z2 + z1 * z3 + z2 * z3 == f * f - 4 * h,
        z1 * (z2 * z3) == g * g,
        4 * (p * p) == z1,
        4 * (q * q) == z2,
        8 * (p * (q * r)) == -g,
        p != 0,
        q != 0,
    ensures
        f == -2 * (p * p + q * q + r * r),
        g == -8 * (p * (q * r)),
        h == (p * p - q * q - r * r) * (p * p - q * q - r * r) - 4 * ((q * q) * (r * r)),
{
    assert(g * g == 16 * ((p * p) * (q * q)) * (4 * (r * r))) by (nonlinear_arith)
        requires
        8 * (p * (q * r)) == -g;
    assert(z1 * (z2 * z3) == 16 * ((p * p) * (q * q)) * z3) by (nonlinear_arith)
        requires
        4 * (p * p) == z1 && 4 * (q * q) == z2;
    assert(4 * (r * r) == z3) by (nonlinear_arith)
        requires
        16 * ((p * p) * (q * q)) * (4 * (r * r)) == 16 * ((p * p) * (q * q)) * z3 && p != 0 && q
            != 0;
    assert(f == -2 * (p * p + q * q + r * r)) by (nonlinear_arith)
        requires
        z1 + z2 + z3 == -2 * f && 4 * (p * p) == z1 && 4 * (q * q) == z2 && 4 * (r * r) == z3;
    assert(h == (p * p - q * q - r * r) * (p * p - q * q - r * r) - 4 * ((q * q) * (r * r)))
        by (nonlinear_arith)
        requires
        z1 * z2 + z1 * z3 + z2 * z3 == f * f - 4 * h && 4 * (p * p) == z1 && 4 * (q * q) == z2 && 4
            * (r * r) == z3 && f == -2 * (p * p + q * q + r * r);
}

/// A surface with zero diffuse color contributes black under any light
/// color and any gain, a zero ambient color contributes black under any
/// gain, and summing black onto black stays black: such a surface shades
/// to black.
pub proof fn lemma_zero_color_shades_black(lc: (int, int, int), k: int, ka: int)
    ensures
        color_scale_s(color_mul_s((0int, 0int, 0int), lc), k) == (0int, 0int, 0int),
        color_scale_s((0int, 0int, 0int), ka) == (0int, 0int, 0int),
        color_add_s((0int, 0int, 0int), (0int, 0int, 0int)) == (0int, 0int, 0int),
{
    lemma_fx_mul_zero(lc.0);
    lemma_fx_mul_zero(lc.1);
    lemma_fx_mul_zero(lc.2);
    lemma_fx_mul_zero(k);
    lemma_fx_mul_zero(ka);
}

/// Inverse-square monotonicity of the diffuse gain: holding the Lambertian
/// cosine fixed and non-negative, a farther light contributes no more than
/// a nearer one. The nearer squared distance must not round to zero (a
/// zero divisor is defined to yield zero, which would break the ordering
/// for lights closer than the scalar resolution resolves).
pub proof fn lemma_inverse_square_antitone(cosine: int, d1: int, d2: int)
    requires
        0 <= cosine,
        0 < d1 <= d2,
        0 < fx_mul_s(d1, d1),
    ensures
        fx_div_s(fx_mul_s(K_DIFFUSE as int, cosine), fx_mul_s(d2, d2)) <= fx_div_s(
            fx_mul_s(K_DIFFUSE as int, cosine),
            fx_mul_s(d1, d1),
        ),
{
    crate::fx::lemma_fx_mul_sign(K_DIFFUSE as int, cosine);
    let n = fx_mul_s(K_DIFFUSE as int, cosine);
    assert(d1 * d1 <= d2 * d2) by (nonlinear_arith)
        requires
        0 < d1 <= d2;
    vstd::arithmetic::div_mod::lemma_div_is_ordered(d1 * d1, d2 * d2, crate::fx::FX_ONE as int);
    let b1 = fx_mul_s(d1, d1);
    let b2 = fx_mul_s(d2, d2);
    assert(0 < b1 <= b2);
    assert(0 <= n * crate::fx::FX_ONE) by (nonlinear_arith)
        requires
        0 <= n;
    vstd::arithmetic::div_mod::lemma_div_is_ordered_by_denominator(n * crate::fx::FX_ONE, b1, b2);
}

} // verus!
