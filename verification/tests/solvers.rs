//! Tests for the fixed-point scalar layer and the polynomial solvers.

use raytrace::cubic::{
    solve_quadratic, solve_quartic, solve_quartic_smallest_positive_real, near_zero, QuadRoots,
    EPSILON,
};
use raytrace::fx::{fx_add, fx_cbrt, fx_div, fx_mul, fx_sqrt, FX_MAX, FX_ONE};
use raytrace::trig::{acos_fx, cos_fx, sin_fx, HALF_PI_FX, PI_FX};

const S: i64 = FX_ONE;

fn close(a: i64, b: i64, tol: i64) -> bool {
    let d = a - b;
    -tol <= d && d <= tol
}

fn cmplx_close(z: (i64, i64), w: (i64, i64), tol: i64) -> bool {
    close(z.0, w.0, tol) && close(z.1, w.1, tol)
}

#[test]
fn test_qaudratic() {
    // x^2 + x = 0 => (0, -1)
    assert_eq!(solve_quadratic(S, S, 0), QuadRoots::TwoReal(0, -S));
    // x^2 + x + 1 = 0 => ()
    assert_eq!(solve_quadratic(S, S, S), QuadRoots::NoRealRoots);
    // x^2 - 2x + 1 = 0 => (1)
    assert_eq!(solve_quadratic(S, -2 * S, S), QuadRoots::OneReal(S));
}

#[test]
fn test_quartic() {
    let tol = S / 8;
    let (r1, r2, r3, r4) = solve_quartic(3 * S, 6 * S, -123 * S, -126 * S, 1080 * S);
    assert!(cmplx_close(r1, (5 * S, 0), tol), "r1 = {:?}", r1);
    assert!(cmplx_close(r2, (3 * S, 0), tol), "r2 = {:?}", r2);
    assert!(cmplx_close(r3, (-4 * S, 0), tol), "r3 = {:?}", r3);
    assert!(cmplx_close(r4, (-6 * S, 0), tol), "r4 = {:?}", r4);
}

#[test]
fn test_quartic_smallest_positive_real() {
    // The roots above are {5, 3, -4, -6}: the smallest positive is 3.
    let t = solve_quartic_smallest_positive_real(3 * S, 6 * S, -123 * S, -126 * S, 1080 * S);
    assert!(t.is_some());
    assert!(close(t.unwrap(), 3 * S, S / 8), "t = {:?}", t);
    // x^4 + 1 = 0 has no real root at all.
    let none = solve_quartic_smallest_positive_real(S, 0, 0, 0, S);
    assert!(none.is_none(), "none = {:?}", none);
}

#[test]
fn test_near_zero_band() {
    assert!(near_zero(0));
    assert!(near_zero(EPSILON - 1));
    assert!(near_zero(-(EPSILON - 1)));
    assert!(!near_zero(EPSILON));
    assert!(!near_zero(-EPSILON));
}

#[test]
fn test_fx_arithmetic() {
    // 1.5 * 2 = 3
    assert_eq!(fx_mul(3 * S / 2, 2 * S), 3 * S);
    // 5 / 4 = 1.25
    assert_eq!(fx_div(5 * S, 4 * S), 5 * S / 4);
    // division by zero is defined to be zero
    assert_eq!(fx_div(5 * S, 0), 0);
    // addition saturates instead of wrapping
    assert_eq!(fx_add(FX_MAX, FX_MAX), FX_MAX);
    assert_eq!(fx_add(-FX_MAX, -FX_MAX), -FX_MAX);
}

#[test]
fn test_fx_roots() {
    assert_eq!(fx_sqrt(4 * S), 2 * S);
    assert_eq!(fx_sqrt(9 * S), 3 * S);
    assert_eq!(fx_sqrt(-S), 0);
    assert_eq!(fx_cbrt(27 * S), 3 * S);
    assert_eq!(fx_cbrt(-27 * S), -3 * S);
    assert_eq!(fx_cbrt(0), 0);
}

#[test]
fn test_trig_values() {
    let tol = 2048;
    assert_eq!(cos_fx(0), S);
    assert_eq!(sin_fx(0), 0);
    assert!(close(cos_fx(PI_FX), -S, tol));
    assert!(close(sin_fx(HALF_PI_FX), S, tol));
    assert!(close(cos_fx(HALF_PI_FX), 0, tol));
    assert!(close(acos_fx(0), HALF_PI_FX, tol));
    assert!(close(acos_fx(S), 0, tol));
    // the cosine kernel is exactly -1 on a small flat region around a half
    // turn, so the bisection settles at that region's edge
    assert!(close(acos_fx(-S), PI_FX, 16384));
}
