//! Fixed-point trigonometry: cosine, sine and arc cosine.
//!
//! Cosine and sine reduce their argument modulo a full turn, fold it into a
//! quarter turn and evaluate a truncated power series there; arc cosine
//! inverts the cosine by bisection. Each executable function returns exactly
//! the value of its spec mirror, and results are clamped to the ranges the
//! real functions obey ([-1, 1] scalars, [0, pi] angles).

use vstd::prelude::*;

use crate::fx::FX_ONE;
use crate::fx::fx_add;
use crate::fx::fx_add_s;
use crate::fx::fx_mul;
use crate::fx::fx_mul_s;
use crate::fx::fx_neg;
use crate::fx::fx_neg_s;
use crate::fx::fx_tdiv;
use crate::fx::tdiv;

verus! {

/// Half a turn, in scalar units of angle.
pub const PI_FX: i64 = 52707179;

/// A full turn.
pub const TAU_FX: i64 = 105414357;

/// A quarter turn.
pub const HALF_PI_FX: i64 = 26353589;

pub const COS_C2: i64 = -8388608;

pub const COS_C4: i64 = 699051;

pub const COS_C6: i64 = -23302;

pub const COS_C8: i64 = 416;

pub const COS_C10: i64 = -5;

pub const SIN_C3: i64 = -2796203;

pub const SIN_C5: i64 = 139810;

pub const SIN_C7: i64 = -3329;

pub const SIN_C9: i64 = 46;

/// Truncated cosine series on a quarter turn, by Horner evaluation in the
/// squared argument.
pub open spec fn cos_kernel_s(x: int) -> int {
    let w = fx_mul_s(x, x);
    fx_add_s(
        FX_ONE as int,
        fx_mul_s(
            w,
            fx_add_s(
                COS_C2 as int,
                fx_mul_s(
                    w,
                    fx_add_s(
                        COS_C4 as int,
                        fx_mul_s(
                            w,
                            fx_add_s(
                                COS_C6 as int,
                                fx_mul_s(w, fx_add_s(COS_C8 as int, fx_mul_s(w, COS_C10 as int))),
                            ),
                        ),
                    ),
                ),
            ),
        ),
    )
}

/// Truncated sine series on a quarter turn.
pub open spec fn sin_kernel_s(x: int) -> int {
    let w = fx_mul_s(x, x);
    fx_add_s(
        x,
        fx_mul_s(
            x,
            fx_mul_s(
                w,
                fx_add_s(
                    SIN_C3 as int,
                    fx_mul_s(
                        w,
                        fx_add_s(
                            SIN_C5 as int,
                            fx_mul_s(w, fx_add_s(SIN_C7 as int, fx_mul_s(w, SIN_C9 as int))),
                        ),
                    ),
                ),
            ),
        ),
    )
}

/// Reduce an angle into [0, TAU_FX).
pub open spec fn reduce_s(x: int) -> int {
    let y = x - tdiv(x, TAU_FX as int) * TAU_FX;
    if y < 0 {
        y + TAU_FX
    } else {
        y
    }
}

/// Clamp a scalar into [-1, 1].
pub open spec fn clamp_unit_s(c: int) -> int {
    if c > FX_ONE as int {
        FX_ONE as int
    } else if c < -(FX_ONE as int) {
        -(FX_ONE as int)
    } else {
        c
    }
}

/// Cosine of a fixed-point angle, in [-1, 1].
pub open spec fn cos_s(x: int) -> int {
    let y = reduce_s(x);
    let z = if y > PI_FX { TAU_FX - y } else { y };
    let c = if z > HALF_PI_FX {
        fx_neg_s(cos_kernel_s(PI_FX - z))
    } else {
        cos_kernel_s(z)
    };
    clamp_unit_s(c)
}

/// Sine of a fixed-point angle, in [-1, 1].
pub open spec fn sin_s(x: int) -> int {
    let y = reduce_s(x);
    let s = if y > PI_FX {
        let z = y - PI_FX;
        if z > HALF_PI_FX {
            fx_neg_s(sin_kernel_s(PI_FX - z))
        } else {
            fx_neg_s(sin_kernel_s(z))
        }
    } else {
        if y > HALF_PI_FX {
            sin_kernel_s(PI_FX - y)
        } else {
            sin_kernel_s(y)
        }
    };
    clamp_unit_s(s)
}

fn cos_kernel(x: i64) -> (r: i64)
    ensures
        r == cos_kernel_s(x as int),
{
    let w = fx_mul(x, x);
    fx_add(
        FX_ONE,
        fx_mul(
            w,
            fx_add(
                COS_C2,
                fx_mul(
                    w,
                    fx_add(
                        COS_C4,
                        fx_mul(w, fx_add(COS_C6, fx_mul(w, fx_add(COS_C8, fx_mul(w, COS_C10))))),
                    ),
                ),
            ),
        ),
    )
}

fn sin_kernel(x: i64) -> (r: i64)
    ensures
        r == sin_kernel_s(x as int),
{
    let w = fx_mul(x, x);
    fx_add(
        x,
        fx_mul(
            x,
            fx_mul(
                w,
                fx_add(
                    SIN_C3,
                    fx_mul(w, fx_add(SIN_C5, fx_mul(w, fx_add(SIN_C7, fx_mul(w, SIN_C9))))),
                ),
            ),
        ),
    )
}

/// Reduce an angle into one turn.
fn reduce_angle(x: i64) -> (r: i64)
    ensures
        r == reduce_s(x as int),
        0 <= r < TAU_FX,
{
    let q = fx_tdiv(x, TAU_FX);
    let y = x - q * TAU_FX;
    if y < 0 {
        y + TAU_FX
    } else {
        y
    }
}

fn clamp_unit(c: i64) -> (r: i64)
    ensures
        r == clamp_unit_s(c as int),
{
    if c > FX_ONE {
        FX_ONE
    } else if c < -FX_ONE {
        -FX_ONE
    } else {
        c
    }
}

/// Cosine of a fixed-point angle.
pub fn cos_fx(x: i64) -> (r: i64)
    ensures
        r == cos_s(x as int),
        -FX_ONE <= r <= FX_ONE,
{
    let y = reduce_angle(x);
    let z = if y > PI_FX {
        TAU_FX - y
    } else {
        y
    };
    let c = if z > HALF_PI_FX {
        fx_neg(cos_kernel(PI_FX - z))
    } else {
        cos_kernel(z)
    };
    clamp_unit(c)
}

/// Sine of a fixed-point angle.
pub fn sin_fx(x: i64) -> (r: i64)
    ensures
        r == sin_s(x as int),
        -FX_ONE <= r <= FX_ONE,
{
    let y = reduce_angle(x);
    let s = if y > PI_FX {
        let z = y - PI_FX;
        if z > HALF_PI_FX {
            fx_neg(sin_kernel(PI_FX - z))
        } else {
            fx_neg(sin_kernel(z))
        }
    } else {
        if y > HALF_PI_FX {
            sin_kernel(PI_FX - y)
        } else {
            sin_kernel(y)
        }
    };
    clamp_unit(s)
}

/// One bisection pass of the arc-cosine search: cosine falls from lo to hi,
/// so a midpoint whose cosine is still above the target lies left of the
/// answer.
pub open spec fn acos_iter_s(t: int, lo: int, hi: int, n: nat) -> int
    decreases n,
{
    let mid = tdiv(lo + hi, 2);
    if n == 0 {
        mid
    } else if cos_s(mid) > t {
        acos_iter_s(t, mid, hi, (n - 1) as nat)
    } else {
        acos_iter_s(t, lo, mid, (n - 1) as nat)
    }
}

/// Arc cosine of a fixed-point scalar (clamped into [-1, 1]), in [0, PI_FX].
pub open spec fn acos_s(x: int) -> int {
    acos_iter_s(clamp_unit_s(x), 0, PI_FX as int, 32)
}

/// Arc cosine by bisection against `cos_fx`.
pub fn acos_fx(x: i64) -> (r: i64)
    ensures
        r == acos_s(x as int),
        0 <= r <= PI_FX,
{
    let t = clamp_unit(x);
    let mut lo: i64 = 0;
    let mut hi: i64 = PI_FX;
    let mut i: u64 = 0;
    while i < 32
        invariant
            0 <= lo <= hi <= PI_FX,
            i <= 32,
            acos_iter_s(t as int, lo as int, hi as int, (32 - i) as nat) == acos_s(x as int),
        decreases 32 - i,
    {
        let mid = fx_tdiv(lo + hi, 2);
        let c = cos_fx(mid);
        if c > t {
            lo = mid;
        } else {
            hi = mid;
        }
        i = i + 1;
    }
    fx_tdiv(lo + hi, 2)
}

} // verus!
