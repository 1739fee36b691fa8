//! Closed-form polynomial solvers: quadratic, cubic (Cardano with a
//! trigonometric branch) and quartic (Ferrari), over fixed-point scalars.
//!
//! Every executable function returns exactly the value of its spec mirror,
//! and each result variant is tied to the discriminant condition that
//! selects it. The algebraic identities behind the root formulas are proved
//! in `algebra`; the complex micro-arithmetic lives here because only the
//! quartic solver needs it.

use vstd::prelude::*;

use crate::fx::EIGHT_FX;
use crate::fx::FOUR_FX;
use crate::fx::FX_ONE;
use crate::fx::NINE_FX;
use crate::fx::SIXTEEN_FX;
use crate::fx::SIXTY_FOUR_FX;
use crate::fx::THREE_FX;
use crate::fx::TWENTY_SEVEN_FX;
use crate::fx::TWO_FIFTY_SIX_FX;
use crate::fx::TWO_FX;
use crate::fx::fx_abs_s;
use crate::fx::fx_add;
use crate::fx::fx_add_s;
use crate::fx::fx_cbrt;
use crate::fx::fx_cbrt_s;
use crate::fx::fx_div;
use crate::fx::fx_div_s;
use crate::fx::fx_mul;
use crate::fx::fx_mul_s;
use crate::fx::fx_neg;
use crate::fx::fx_neg_s;
use crate::fx::fx_sqrt;
use crate::fx::fx_sqrt_s;
use crate::fx::fx_sub;
use crate::fx::fx_sub_s;

verus! {

/// Roots of a quadratic equation.
#[derive(Debug, Clone, Copy, PartialEq, Eq, Structural)]
pub enum QuadRoots {
    TwoReal(i64, i64),
    OneReal(i64),
    NoRealRoots,
}

/// Roots of a cubic equation.
#[derive(Debug, Clone, Copy, PartialEq)]
pub enum CubicRoots {
    ThreeReal(i64, i64, i64),
    OneRealTwoComplex(i64, (i64, i64), (i64, i64)),
}

/// A complex number as (real part, imaginary part).
pub type Cmplx = (i64, i64);

/// Near-zero band for the solvers' branch decisions, in scalar units.
pub const EPSILON: i64 = 1024;

pub open spec fn near_zero_s(x: int) -> bool {
    x < EPSILON && x > -EPSILON
}

/// Whether a scalar lies inside the near-zero band.
pub fn near_zero(x: i64) -> (r: bool)
    ensures
        r == near_zero_s(x as int),
{
    x < EPSILON && x > -EPSILON
}

/// The quadratic discriminant b^2 - 4ac, as the solver computes it.
pub open spec fn quad_disc_s(a: int, b: int, c: int) -> int {
    fx_sub_s(fx_mul_s(b, b), fx_mul_s(fx_mul_s(FOUR_FX as int, a), c))
}

/// Solve a*x^2 + b*x + c = 0.
///
/// A positive discriminant yields the two real roots (-b +- sqrt(d)) / 2a,
/// larger first; an exactly zero discriminant the single root -b / 2a; a
/// negative one no real roots.
pub fn solve_quadratic(a: i64, b: i64, c: i64) -> (r: QuadRoots)
    requires
        a != 0,
    ensures
        ({
            let d = quad_disc_s(a as int, b as int, c as int);
            match r {
                QuadRoots::TwoReal(r1, r2) => d > 0 && r1 == fx_div_s(
                    fx_add_s(fx_neg_s(b as int), fx_sqrt_s(d)),
                    fx_mul_s(TWO_FX as int, a as int),
                ) && r2 == fx_div_s(
                    fx_sub_s(fx_neg_s(b as int), fx_sqrt_s(d)),
                    fx_mul_s(TWO_FX as int, a as int),
                ),
                QuadRoots::OneReal(r1) => d == 0 && r1 == fx_div_s(
                    fx_neg_s(b as int),
                    fx_mul_s(TWO_FX as int, a as int),
                ),
                QuadRoots::NoRealRoots => d < 0,
            }
        }),
{
    let d = fx_sub(fx_mul(b, b), fx_mul(fx_mul(FOUR_FX, a), c));
    if d > 0 {
        let sq = fx_sqrt(d);
        QuadRoots::TwoReal(
            fx_div(fx_add(fx_neg(b), sq), fx_mul(TWO_FX, a)),
            fx_div(fx_sub(fx_neg(b), sq), fx_mul(TWO_FX, a)),
        )
    } else if d == 0 {
        QuadRoots::OneReal(fx_div(fx_neg(b), fx_mul(TWO_FX, a)))
    } else {
        QuadRoots::NoRealRoots
    }
}

/// One of the two square roots of a complex number, the one with a
/// non-negative imaginary part.
pub open spec fn sqrt_cmplx_s(z: (int, int)) -> (int, int) {
    let r = fx_sqrt_s(fx_add_s(fx_mul_s(z.0, z.0), fx_mul_s(z.1, z.1)));
    let y = fx_sqrt_s(fx_div_s(fx_sub_s(r, z.0), TWO_FX as int));
    let x = fx_div_s(z.1, fx_mul_s(TWO_FX as int, y));
    (x, y)
}

fn sqrt_cmplx(z: Cmplx) -> (w: Cmplx)
    ensures
        (w.0 as int, w.1 as int) == sqrt_cmplx_s((z.0 as int, z.1 as int)),
        -crate::fx::FX_MAX <= w.1 <= crate::fx::FX_MAX,
{
    let r = fx_sqrt(fx_add(fx_mul(z.0, z.0), fx_mul(z.1, z.1)));
    let y = fx_sqrt(fx_div(fx_sub(r, z.0), TWO_FX));
    let x = fx_div(z.1, fx_mul(TWO_FX, y));
    (x, y)
}

pub open spec fn round_near_zero_s(x: int) -> int {
    if near_zero_s(x) {
        0
    } else {
        x
    }
}

/// Flush values inside the near-zero band to exactly zero.
fn round_near_zero(x: i64) -> (r: i64)
    ensures
        r == round_near_zero_s(x as int),
{
    if near_zero(x) {
        0
    } else {
        x
    }
}

/// The complex square root of a real scalar: real for a non-negative
/// argument, purely imaginary for a negative one.
pub open spec fn sqrt_real_s(x: int) -> (int, int) {
    if x >= 0 {
        (fx_sqrt_s(x), 0)
    } else {
        (0, fx_sqrt_s(fx_neg_s(x)))
    }
}

fn sqrt_real(x: i64) -> (w: Cmplx)
    ensures
        (w.0 as int, w.1 as int) == sqrt_real_s(x as int),
        w.0 == 0 || w.1 == 0,
        -crate::fx::FX_MAX <= w.1 <= crate::fx::FX_MAX,
{
    if x >= 0 {
        (fx_sqrt(x), 0)
    } else {
        (0, fx_sqrt(fx_neg(x)))
    }
}

pub open spec fn cmplx_add_s(a: (int, int), b: (int, int)) -> (int, int) {
    (fx_add_s(a.0, b.0), fx_add_s(a.1, b.1))
}

fn cmplx_add(a: Cmplx, b: Cmplx) -> (w: Cmplx)
    ensures
        (w.0 as int, w.1 as int) == cmplx_add_s((a.0 as int, a.1 as int), (b.0 as int, b.1 as int)),
{
    (fx_add(a.0, b.0), fx_add(a.1, b.1))
}

pub open spec fn cmplx_mult_s(a: (int, int), b: (int, int)) -> (int, int) {
    (
        fx_sub_s(fx_mul_s(a.0, b.0), fx_mul_s(a.1, b.1)),
        fx_add_s(fx_mul_s(a.0, b.1), fx_mul_s(b.0, a.1)),
    )
}

fn cmplx_mult(a: Cmplx, b: Cmplx) -> (w: Cmplx)
    ensures
        (w.0 as int, w.1 as int) == cmplx_mult_s(
            (a.0 as int, a.1 as int),
            (b.0 as int, b.1 as int),
        ),
{
    (fx_sub(fx_mul(a.0, b.0), fx_mul(a.1, b.1)), fx_add(fx_mul(a.0, b.1), fx_mul(b.0, a.1)))
}

pub open spec fn cmplx_neg_s(a: (int, int)) -> (int, int) {
    (fx_neg_s(a.0), fx_neg_s(a.1))
}

fn cmplx_neg(a: Cmplx) -> (w: Cmplx)
    ensures
        (w.0 as int, w.1 as int) == cmplx_neg_s((a.0 as int, a.1 as int)),
{
    (fx_neg(a.0), fx_neg(a.1))
}

/// Divide a real scalar by a complex number that is purely real or purely
/// imaginary.
pub open spec fn real_or_img_div_s(y: int, z: (int, int)) -> (int, int) {
    if z.0 == 0 {
        (0, fx_div_s(fx_neg_s(y), z.1))
    } else {
        (fx_div_s(y, z.0), 0)
    }
}

fn real_or_img_div(y: i64, z: Cmplx) -> (w: Cmplx)
    requires
        z.0 == 0 || z.1 == 0,
    ensures
        (w.0 as int, w.1 as int) == real_or_img_div_s(y as int, (z.0 as int, z.1 as int)),
{
    if z.0 == 0 {
        (0, fx_div(fx_neg(y), z.1))
    } else {
        (fx_div(y, z.0), 0)
    }
}

/// The depressed-cubic coefficient f = c/a - b^2/(3a^2).
pub open spec fn cubic_f_s(a: int, b: int, c: int) -> int {
    fx_sub_s(
        fx_div_s(c, a),
        fx_div_s(fx_mul_s(b, b), fx_mul_s(fx_mul_s(THREE_FX as int, a), a)),
    )
}

/// The depressed-cubic coefficient g = (2b^3/a - 9bc + 27da) / (27a^2).
pub open spec fn cubic_g_s(a: int, b: int, c: int, d: int) -> int {
    fx_div_s(
        fx_add_s(
            fx_sub_s(
                fx_div_s(fx_mul_s(fx_mul_s(fx_mul_s(TWO_FX as int, b), b), b), a),
                fx_mul_s(fx_mul_s(NINE_FX as int, b), c),
            ),
            fx_mul_s(fx_mul_s(TWENTY_SEVEN_FX as int, d), a),
        ),
        fx_mul_s(fx_mul_s(TWENTY_SEVEN_FX as int, a), a),
    )
}

/// The discriminant proxy h = g^2/4 + f^3/27: positive for one real root,
/// negative for three distinct real roots.
pub open spec fn cubic_h_s(a: int, b: int, c: int, d: int) -> int {
    let f = cubic_f_s(a, b, c);
    let g = cubic_g_s(a, b, c, d);
    fx_add_s(
        fx_div_s(fx_mul_s(g, g), FOUR_FX as int),
        fx_div_s(fx_mul_s(fx_mul_s(f, f), f), TWENTY_SEVEN_FX as int),
    )
}

/// Cardano's real root s + u - b/(3a) in the one-real-root regime.
pub open spec fn cubic_one_real_s(a: int, b: int, c: int, d: int) -> int {
    let g = cubic_g_s(a, b, c, d);
    let h = cubic_h_s(a, b, c, d);
    let s = fx_cbrt_s(fx_add_s(fx_div_s(fx_neg_s(g), TWO_FX as int), fx_sqrt_s(h)));
    let u = fx_cbrt_s(fx_sub_s(fx_div_s(fx_neg_s(g), TWO_FX as int), fx_sqrt_s(h)));
    fx_sub_s(fx_add_s(s, u), fx_div_s(b, fx_mul_s(THREE_FX as int, a)))
}

/// Real part of the conjugate pair in the one-real-root regime.
pub open spec fn cubic_cx_re_s(a: int, b: int, c: int, d: int) -> int {
    let g = cubic_g_s(a, b, c, d);
    let h = cubic_h_s(a, b, c, d);
    let s = fx_cbrt_s(fx_add_s(fx_div_s(fx_neg_s(g), TWO_FX as int), fx_sqrt_s(h)));
    let u = fx_cbrt_s(fx_sub_s(fx_div_s(fx_neg_s(g), TWO_FX as int), fx_sqrt_s(h)));
    fx_sub_s(
        fx_div_s(fx_neg_s(fx_add_s(s, u)), TWO_FX as int),
        fx_div_s(b, fx_mul_s(THREE_FX as int, a)),
    )
}

/// Imaginary part (s - u) * sqrt(3) / 2 of the conjugate pair.
pub open spec fn cubic_cx_im_s(a: int, b: int, c: int, d: int) -> int {
    let g = cubic_g_s(a, b, c, d);
    let h = cubic_h_s(a, b, c, d);
    let s = fx_cbrt_s(fx_add_s(fx_div_s(fx_neg_s(g), TWO_FX as int), fx_sqrt_s(h)));
    let u = fx_cbrt_s(fx_sub_s(fx_div_s(fx_neg_s(g), TWO_FX as int), fx_sqrt_s(h)));
    fx_div_s(fx_mul_s(fx_sub_s(s, u), fx_sqrt_s(THREE_FX as int)), TWO_FX as int)
}

/// The triple root -cbrt(d/a) of a fully degenerate cubic.
pub open spec fn cubic_triple_s(a: int, d: int) -> int {
    fx_neg_s(fx_cbrt_s(fx_div_s(d, a)))
}

/// The magnitude sqrt(g^2/4 - h) of the complex number whose argument the
/// trigonometric branch takes.
pub open spec fn cubic_trig_i_s(a: int, b: int, c: int, d: int) -> int {
    let g = cubic_g_s(a, b, c, d);
    let h = cubic_h_s(a, b, c, d);
    fx_sqrt_s(fx_sub_s(fx_div_s(fx_mul_s(g, g), FOUR_FX as int), h))
}

/// One third of the argument angle, from the clamped cosine ratio.
pub open spec fn cubic_trig_k_s(a: int, b: int, c: int, d: int) -> int {
    let g = cubic_g_s(a, b, c, d);
    let i = cubic_trig_i_s(a, b, c, d);
    let gi = fx_div_s(fx_neg_s(g), fx_mul_s(TWO_FX as int, i));
    fx_div_s(crate::trig::acos_s(crate::trig::clamp_unit_s(gi)), THREE_FX as int)
}

/// First root 2 j cos(k) + p of the three-real-root regime.
pub open spec fn cubic_trig1_s(a: int, b: int, c: int, d: int) -> int {
    let j = fx_cbrt_s(cubic_trig_i_s(a, b, c, d));
    let k = cubic_trig_k_s(a, b, c, d);
    let p = fx_neg_s(fx_div_s(b, fx_mul_s(THREE_FX as int, a)));
    fx_add_s(fx_mul_s(fx_mul_s(TWO_FX as int, j), crate::trig::cos_s(k)), p)
}

/// Second root -j (cos(k) + sqrt(3) sin(k)) + p.
pub open spec fn cubic_trig2_s(a: int, b: int, c: int, d: int) -> int {
    let j = fx_cbrt_s(cubic_trig_i_s(a, b, c, d));
    let k = cubic_trig_k_s(a, b, c, d);
    let p = fx_neg_s(fx_div_s(b, fx_mul_s(THREE_FX as int, a)));
    let m = crate::trig::cos_s(k);
    let n = fx_mul_s(fx_sqrt_s(THREE_FX as int), crate::trig::sin_s(k));
    fx_add_s(fx_mul_s(fx_neg_s(j), fx_add_s(m, n)), p)
}

/// Third root -j (cos(k) - sqrt(3) sin(k)) + p.
pub open spec fn cubic_trig3_s(a: int, b: int, c: int, d: int) -> int {
    let j = fx_cbrt_s(cubic_trig_i_s(a, b, c, d));
    let k = cubic_trig_k_s(a, b, c, d);
    let p = fx_neg_s(fx_div_s(b, fx_mul_s(THREE_FX as int, a)));
    let m = crate::trig::cos_s(k);
    let n = fx_mul_s(fx_sqrt_s(THREE_FX as int), crate::trig::sin_s(k));
    fx_add_s(fx_mul_s(fx_neg_s(j), fx_sub_s(m, n)), p)
}

/// Solve a*x^3 + b*x^2 + c*x + d = 0 by Cardano's substitution.
///
/// A discriminant proxy h above the near-zero band yields one real root and
/// an exact conjugate pair; a fully degenerate depressed cubic yields a
/// triple root; otherwise three real roots come from the trigonometric
/// method. The cosine ratio fed to the arc cosine is clamped into [-1, 1]
/// on both sides to absorb rounding of the radicals.
pub fn solve_cubic(a: i64, b: i64, c: i64, d: i64) -> (r: CubicRoots)
    requires
        !near_zero_s(a as int),
    ensures
        ({
            let f = cubic_f_s(a as int, b as int, c as int);
            let g = cubic_g_s(a as int, b as int, c as int, d as int);
            let h = cubic_h_s(a as int, b as int, c as int, d as int);
            match r {
                CubicRoots::OneRealTwoComplex(x, p1, p2) => h > EPSILON && x == cubic_one_real_s(
                    a as int,
                    b as int,
                    c as int,
                    d as int,
                ) && p1.0 == cubic_cx_re_s(a as int, b as int, c as int, d as int) && p1.1
                    == cubic_cx_im_s(a as int, b as int, c as int, d as int) && p2.0 == p1.0
                    && p2.1 == fx_neg_s(p1.1 as int),
                CubicRoots::ThreeReal(r1, r2, r3) => h <= EPSILON && if near_zero_s(h)
                    && near_zero_s(f) && near_zero_s(g) {
                    r1 == cubic_triple_s(a as int, d as int) && r2 == r1 && r3 == r1
                } else {
                    r1 == cubic_trig1_s(a as int, b as int, c as int, d as int) && r2
                        == cubic_trig2_s(a as int, b as int, c as int, d as int) && r3
                        == cubic_trig3_s(a as int, b as int, c as int, d as int)
                },
            }
        }),
{
    let f = fx_sub(fx_div(c, a), fx_div(fx_mul(b, b), fx_mul(fx_mul(THREE_FX, a), a)));
    let g = fx_div(
        fx_add(
            fx_sub(
                fx_div(fx_mul(fx_mul(fx_mul(TWO_FX, b), b), b), a),
                fx_mul(fx_mul(NINE_FX, b), c),
            ),
            fx_mul(fx_mul(TWENTY_SEVEN_FX, d), a),
        ),
        fx_mul(fx_mul(TWENTY_SEVEN_FX, a), a),
    );
    let h = fx_add(
        fx_div(fx_mul(g, g), FOUR_FX),
        fx_div(fx_mul(fx_mul(f, f), f), TWENTY_SEVEN_FX),
    );

    if h > EPSILON {
        let sq = fx_sqrt(h);
        let s = fx_cbrt(fx_add(fx_div(fx_neg(g), TWO_FX), sq));
        let u = fx_cbrt(fx_sub(fx_div(fx_neg(g), TWO_FX), sq));
        let shift = fx_div(b, fx_mul(THREE_FX, a));
        let re = fx_sub(fx_div(fx_neg(fx_add(s, u)), TWO_FX), shift);
        let img = fx_div(fx_mul(fx_sub(s, u), fx_sqrt(THREE_FX)), TWO_FX);
        CubicRoots::OneRealTwoComplex(
            fx_sub(fx_add(s, u), shift),
            (re, img),
            (re, fx_neg(img)),
        )
    } else if near_zero(h) && near_zero(f) && near_zero(g) {
        let t = fx_neg(fx_cbrt(fx_div(d, a)));
        CubicRoots::ThreeReal(t, t, t)
    } else {
        let i = fx_sqrt(fx_sub(fx_div(fx_mul(g, g), FOUR_FX), h));
        let j = fx_cbrt(i);
        let gi = fx_div(fx_neg(g), fx_mul(TWO_FX, i));
        let gh = if gi < -FX_ONE {
            -FX_ONE
        } else if gi > FX_ONE {
            FX_ONE
        } else {
            gi
        };
        let k = fx_div(crate::trig::acos_fx(gh), THREE_FX);
        let l = fx_neg(j);
        let m = crate::trig::cos_fx(k);
        let n = fx_mul(fx_sqrt(THREE_FX), crate::trig::sin_fx(k));
        let p = fx_neg(fx_div(b, fx_mul(THREE_FX, a)));
        CubicRoots::ThreeReal(
            fx_add(fx_mul(fx_mul(TWO_FX, j), m), p),
            fx_add(fx_mul(l, fx_add(m, n)), p),
            fx_add(fx_mul(l, fx_sub(m, n)), p),
        )
    }
}

/// The monic quartic's second coefficient bb/aa.
pub open spec fn quartic_b_s(aa: int, bb: int) -> int {
    fx_div_s(bb, aa)
}

/// The depressed-quartic coefficient f = c - 3b^2/8.
pub open spec fn quartic_f_s(aa: int, bb: int, cc: int) -> int {
    let b = fx_div_s(bb, aa);
    let c = fx_div_s(cc, aa);
    fx_sub_s(c, fx_div_s(fx_mul_s(fx_mul_s(THREE_FX as int, b), b), EIGHT_FX as int))
}

/// The depressed-quartic coefficient g = d + b^3/8 - bc/2.
pub open spec fn quartic_g_s(aa: int, bb: int, cc: int, dd: int) -> int {
    let b = fx_div_s(bb, aa);
    let c = fx_div_s(cc, aa);
    let d = fx_div_s(dd, aa);
    fx_sub_s(
        fx_add_s(d, fx_div_s(fx_mul_s(fx_mul_s(b, b), b), EIGHT_FX as int)),
        fx_div_s(fx_mul_s(b, c), TWO_FX as int),
    )
}

/// The depressed-quartic coefficient h = e - 3b^4/256 + b^2 c/16 - bd/4.
pub open spec fn quartic_h_s(aa: int, bb: int, cc: int, dd: int, ee: int) -> int {
    let b = fx_div_s(bb, aa);
    let c = fx_div_s(cc, aa);
    let d = fx_div_s(dd, aa);
    let e = fx_div_s(ee, aa);
    fx_sub_s(
        fx_add_s(
            fx_sub_s(
                e,
                fx_div_s(
                    fx_mul_s(fx_mul_s(fx_mul_s(fx_mul_s(THREE_FX as int, b), b), b), b),
                    TWO_FIFTY_SIX_FX as int,
                ),
            ),
            fx_div_s(fx_mul_s(fx_mul_s(b, b), c), SIXTEEN_FX as int),
        ),
        fx_div_s(fx_mul_s(b, d), FOUR_FX as int),
    )
}

/// The resolvent cubic's coefficients (1, f/2, (f^2-4h)/16, -g^2/64).
pub open spec fn quartic_resolvent_s(aa: int, bb: int, cc: int, dd: int, ee: int) -> (
    int,
    int,
    int,
) {
    let f = quartic_f_s(aa, bb, cc);
    let g = quartic_g_s(aa, bb, cc, dd);
    let h = quartic_h_s(aa, bb, cc, dd, ee);
    (
        fx_div_s(f, TWO_FX as int),
        fx_div_s(fx_sub_s(fx_mul_s(f, f), fx_mul_s(FOUR_FX as int, h)), SIXTEEN_FX as int),
        fx_div_s(fx_neg_s(fx_mul_s(g, g)), SIXTY_FOUR_FX as int),
    )
}

/// The two auxiliary square roots p, q of Ferrari's factorization, from the
/// resolvent's roots: complex-conjugate square roots when the resolvent has
/// a conjugate pair, real or imaginary square roots of the two roots kept
/// after flushing a near-zero one otherwise.
#[verifier::opaque]
pub open spec fn quartic_pq_s(aa: int, bb: int, cc: int, dd: int, ee: int) -> (
    (int, int),
    (int, int),
) {
    let (rb, rc, rd) = quartic_resolvent_s(aa, bb, cc, dd, ee);
    let one = FX_ONE as int;
    if cubic_h_s(one, rb, rc, rd) > EPSILON {
        let p = sqrt_cmplx_s((cubic_cx_re_s(one, rb, rc, rd), cubic_cx_im_s(one, rb, rc, rd)));
        (p, (p.0, fx_neg_s(p.1)))
    } else {
        let triple = near_zero_s(cubic_h_s(one, rb, rc, rd)) && near_zero_s(
            cubic_f_s(one, rb, rc),
        ) && near_zero_s(cubic_g_s(one, rb, rc, rd));
        let w1 = if triple {
            cubic_triple_s(one, rd)
        } else {
            cubic_trig1_s(one, rb, rc, rd)
        };
        let w2 = if triple {
            cubic_triple_s(one, rd)
        } else {
            cubic_trig2_s(one, rb, rc, rd)
        };
        let w3 = if triple {
            cubic_triple_s(one, rd)
        } else {
            cubic_trig3_s(one, rb, rc, rd)
        };
        let y1 = round_near_zero_s(w1);
        let y2 = round_near_zero_s(w2);
        let y3 = round_near_zero_s(w3);
        let psq = if y1 == 0 {
            y2
        } else if y2 == 0 {
            y1
        } else {
            y1
        };
        let qsq = if y1 == 0 {
            y3
        } else if y2 == 0 {
            y3
        } else {
            y2
        };
        (sqrt_real_s(psq), sqrt_real_s(qsq))
    }
}

/// All four roots of the quartic: (+-p +- q) with the cross term r and the
/// shift -b/4 folded in, as complex numbers.
#[verifier::opaque]
pub open spec fn quartic_roots_s(aa: int, bb: int, cc: int, dd: int, ee: int) -> (
    (int, int),
    (int, int),
    (int, int),
    (int, int),
) {
    let b = quartic_b_s(aa, bb);
    let g = quartic_g_s(aa, bb, cc, dd);
    let (p, q) = quartic_pq_s(aa, bb, cc, dd, ee);
    let pq = cmplx_mult_s(p, q);
    let r = if pq == (0int, 0int) {
        (0int, 0int)
    } else {
        real_or_img_div_s(
            fx_neg_s(g),
            (fx_mul_s(EIGHT_FX as int, pq.0), fx_mul_s(EIGHT_FX as int, pq.1)),
        )
    };
    let ns = (fx_neg_s(fx_div_s(b, fx_mul_s(FOUR_FX as int, FX_ONE as int))), 0int);
    (
        cmplx_add_s(cmplx_add_s(cmplx_add_s(p, q), r), ns),
        cmplx_add_s(cmplx_add_s(cmplx_add_s(p, cmplx_neg_s(q)), cmplx_neg_s(r)), ns),
        cmplx_add_s(cmplx_add_s(cmplx_add_s(cmplx_neg_s(p), q), cmplx_neg_s(r)), ns),
        cmplx_add_s(cmplx_add_s(cmplx_add_s(cmplx_neg_s(p), cmplx_neg_s(q)), r), ns),
    )
}

/// Solve aa*x^4 + bb*x^3 + cc*x^2 + dd*x + ee = 0 by Ferrari's method: the
/// four complex roots, two conjugate pairs in general.
#[verifier::rlimit(100)]
pub fn solve_quartic(aa: i64, bb: i64, cc: i64, dd: i64, ee: i64) -> (r: (
    Cmplx,
    Cmplx,
    Cmplx,
    Cmplx,
))
    requires
        !near_zero_s(aa as int),
    ensures
        (
            (r.0.0 as int, r.0.1 as int),
            (r.1.0 as int, r.1.1 as int),
            (r.2.0 as int, r.2.1 as int),
            (r.3.0 as int, r.3.1 as int),
        ) == quartic_roots_s(aa as int, bb as int, cc as int, dd as int, ee as int),
{
    proof {
        reveal(quartic_pq_s);
        reveal(quartic_roots_s);
    }
    let b = fx_div(bb, aa);
    let c = fx_div(cc, aa);
    let d = fx_div(dd, aa);
    let e = fx_div(ee, aa);
    let f = fx_sub(c, fx_div(fx_mul(fx_mul(THREE_FX, b), b), EIGHT_FX));
    let g = fx_sub(
        fx_add(d, fx_div(fx_mul(fx_mul(b, b), b), EIGHT_FX)),
        fx_div(fx_mul(b, c), TWO_FX),
    );
    let h = fx_sub(
        fx_add(
            fx_sub(
                e,
                fx_div(fx_mul(fx_mul(fx_mul(fx_mul(THREE_FX, b), b), b), b), TWO_FIFTY_SIX_FX),
            ),
            fx_div(fx_mul(fx_mul(b, b), c), SIXTEEN_FX),
        ),
        fx_div(fx_mul(b, d), FOUR_FX),
    );
    let rb = fx_div(f, TWO_FX);
    let rc = fx_div(fx_sub(fx_mul(f, f), fx_mul(FOUR_FX, h)), SIXTEEN_FX);
    let rd = fx_div(fx_neg(fx_mul(g, g)), SIXTY_FOUR_FX);

    let cb = solve_cubic(FX_ONE, rb, rc, rd);

    let p: Cmplx;
    let q: Cmplx;
    match cb {
        CubicRoots::ThreeReal(w1, w2, w3) => {
            let y1 = round_near_zero(w1);
            let y2 = round_near_zero(w2);
            let y3 = round_near_zero(w3);
            let psq: i64;
            let qsq: i64;
            if y1 == 0 {
                psq = y2;
                qsq = y3;
            } else if y2 == 0 {
                psq = y1;
                qsq = y3;
            } else {
                psq = y1;
                qsq = y2;
            }
            p = sqrt_real(psq);
            q = sqrt_real(qsq);
        },
        CubicRoots::OneRealTwoComplex(_, (y1, y1i), (_y2, _y2i)) => {
            let w = sqrt_cmplx((y1, y1i));
            p = w;
            q = (w.0, fx_neg(w.1));
        },
    }
    let pq = cmplx_mult(p, q);
    let r: Cmplx;
    if pq.0 == 0 && pq.1 == 0 {
        r = (0, 0);
    } else {
        proof {
            crate::fx::lemma_fx_mul_zero(p.0 as int);
            crate::fx::lemma_fx_mul_zero(p.1 as int);
            crate::fx::lemma_fx_mul_zero(q.0 as int);
            crate::fx::lemma_fx_mul_zero(q.1 as int);
            crate::fx::lemma_fx_mul_zero(EIGHT_FX as int);
            crate::fx::lemma_fx_mul_neg(p.0 as int, p.1 as int);
            assert(pq.0 == 0 || pq.1 == 0);
        }
        r = real_or_img_div(fx_neg(g), (fx_mul(EIGHT_FX, pq.0), fx_mul(EIGHT_FX, pq.1)));
    }
    let s = fx_div(b, fx_mul(FOUR_FX, FX_ONE));
    let ns = (fx_neg(s), 0i64);
    (
        cmplx_add(cmplx_add(cmplx_add(p, q), r), ns),
        cmplx_add(cmplx_add(cmplx_add(p, cmplx_neg(q)), cmplx_neg(r)), ns),
        cmplx_add(cmplx_add(cmplx_add(cmplx_neg(p), q), cmplx_neg(r)), ns),
        cmplx_add(cmplx_add(cmplx_add(cmplx_neg(p), cmplx_neg(q)), r), ns),
    )
}

/// Whether a complex root counts as a positive real: real part above the
/// near-zero band and imaginary magnitude inside it.
pub open spec fn positive_real_s(z: (int, int)) -> bool {
    z.0 > EPSILON && fx_abs_s(z.1) < EPSILON
}

/// Keep the smaller of a candidate so far and a new qualifying root.
pub open spec fn pick_smaller_s(acc: Option<int>, z: (int, int)) -> Option<int> {
    match acc {
        Option::None => if positive_real_s(z) {
            Option::Some(z.0)
        } else {
            Option::None
        },
        Option::Some(t) => if positive_real_s(z) && z.0 < t {
            Option::Some(z.0)
        } else {
            acc
        },
    }
}

/// The smallest positive real root among the four quartic roots, if any.
pub open spec fn smallest_positive_real_s(
    rs: ((int, int), (int, int), (int, int), (int, int)),
) -> Option<int> {
    pick_smaller_s(
        pick_smaller_s(pick_smaller_s(pick_smaller_s(Option::None, rs.0), rs.1), rs.2),
        rs.3,
    )
}

fn pick_smaller(acc: Option<i64>, z: Cmplx) -> (w: Option<i64>)
    ensures
        ({
            let m = pick_smaller_s(
                match acc {
                    Option::Some(t) => Option::Some(t as int),
                    Option::None => Option::None,
                },
                (z.0 as int, z.1 as int),
            );
            match w {
                Option::Some(t) => m == Option::Some(t as int),
                Option::None => m is None,
            }
        }),
{
    let qualifies = z.0 > EPSILON && crate::fx::fx_abs(z.1) < EPSILON;
    match acc {
        Option::None => if qualifies {
            Option::Some(z.0)
        } else {
            Option::None
        },
        Option::Some(t) => if qualifies && z.0 < t {
            Option::Some(z.0)
        } else {
            Option::Some(t)
        },
    }
}

/// The smallest positive real root of a quartic: the least root whose real
/// part exceeds the near-zero band while its imaginary part stays inside
/// it; nothing when no root qualifies.
#[verifier::rlimit(100)]
pub fn solve_quartic_smallest_positive_real(aa: i64, bb: i64, cc: i64, dd: i64, ee: i64) -> (r:
    Option<i64>)
    requires
        !near_zero_s(aa as int),
    ensures
        ({
            let m = smallest_positive_real_s(
                quartic_roots_s(aa as int, bb as int, cc as int, dd as int, ee as int),
            );
            match r {
                Option::Some(t) => m == Option::Some(t as int) && t > EPSILON,
                Option::None => m is None,
            }
        }),
{
    let roots = solve_quartic(aa, bb, cc, dd, ee);
    let mut best: Option<i64> = Option::None;
    best = pick_smaller(best, roots.0);
    best = pick_smaller(best, roots.1);
    best = pick_smaller(best, roots.2);
    best = pick_smaller(best, roots.3);
    best
}

} // verus!
