//! Three-component fixed-point vectors.
//!
//! Contracts speak of the component triple `(int, int, int)` returned by
//! [`v3`]; every operation returns exactly the value of its spec mirror.
//! `rotate_inv` carries a vector into the frame of a body rotated by two
//! angles (about the x axis, then the y axis) and `rotate` carries it back;
//! the exact algebra behind that round trip is proved in `algebra`.

use vstd::prelude::*;

use crate::fx::fx_add;
use crate::fx::fx_add_s;
use crate::fx::fx_div;
use crate::fx::fx_div_s;
use crate::fx::fx_mul;
use crate::fx::fx_sub;
use crate::fx::fx_sub_s;
use crate::fx::fx_mul_s;
use crate::fx::fx_neg;
use crate::fx::fx_neg_s;
use crate::fx::fx_sqrt;
use crate::fx::fx_sqrt_s;
use crate::trig::cos_fx;
use crate::trig::cos_s;
use crate::trig::sin_fx;
use crate::trig::sin_s;

verus! {

#[derive(Debug, Clone, Copy, PartialEq, Eq, Structural)]
pub struct Vector3 {
    pub x: i64,
    pub y: i64,
    pub z: i64,
}

/// The component triple of a vector, for contracts.
pub open spec fn v3(v: Vector3) -> (int, int, int) {
    (v.x as int, v.y as int, v.z as int)
}

pub open spec fn add_s(a: (int, int, int), b: (int, int, int)) -> (int, int, int) {
    (fx_add_s(a.0, b.0), fx_add_s(a.1, b.1), fx_add_s(a.2, b.2))
}

pub open spec fn neg_s(a: (int, int, int)) -> (int, int, int) {
    (fx_neg_s(a.0), fx_neg_s(a.1), fx_neg_s(a.2))
}

pub open spec fn sub_s(a: (int, int, int), b: (int, int, int)) -> (int, int, int) {
    (fx_sub_s(a.0, b.0), fx_sub_s(a.1, b.1), fx_sub_s(a.2, b.2))
}

pub open spec fn scale_s(a: (int, int, int), k: int) -> (int, int, int) {
    (fx_mul_s(a.0, k), fx_mul_s(a.1, k), fx_mul_s(a.2, k))
}

pub open spec fn dot_s(a: (int, int, int), b: (int, int, int)) -> int {
    fx_add_s(fx_add_s(fx_mul_s(a.0, b.0), fx_mul_s(a.1, b.1)), fx_mul_s(a.2, b.2))
}

pub open spec fn cross_s(a: (int, int, int), b: (int, int, int)) -> (int, int, int) {
    (
        fx_sub_s(fx_mul_s(a.1, b.2), fx_mul_s(a.2, b.1)),
        fx_sub_s(fx_mul_s(a.2, b.0), fx_mul_s(a.0, b.2)),
        fx_sub_s(fx_mul_s(a.0, b.1), fx_mul_s(a.1, b.0)),
    )
}

pub open spec fn len_sq_s(a: (int, int, int)) -> int {
    dot_s(a, a)
}

pub open spec fn len_s(a: (int, int, int)) -> int {
    fx_sqrt_s(len_sq_s(a))
}

/// A vector scaled to unit length; the zero vector stays zero.
pub open spec fn normalize_s(a: (int, int, int)) -> (int, int, int) {
    let l = len_s(a);
    if l == 0 {
        (0, 0, 0)
    } else {
        (fx_div_s(a.0, l), fx_div_s(a.1, l), fx_div_s(a.2, l))
    }
}

/// Carry a vector into the frame of a body rotated by angles (a, b).
pub open spec fn rotate_inv_s(v: (int, int, int), a: int, b: int) -> (int, int, int) {
    let cosa = cos_s(a);
    let cosb = cos_s(b);
    let sina = sin_s(a);
    let sinb = sin_s(b);
    (
        fx_add_s(
            fx_add_s(fx_mul_s(v.0, cosb), fx_mul_s(fx_mul_s(v.1, sina), sinb)),
            fx_mul_s(fx_mul_s(v.2, cosa), sinb),
        ),
        fx_add_s(fx_mul_s(v.1, cosa), fx_mul_s(v.2, fx_neg_s(sina))),
        fx_add_s(
            fx_add_s(fx_mul_s(v.0, fx_neg_s(sinb)), fx_mul_s(fx_mul_s(v.1, cosb), sina)),
            fx_mul_s(fx_mul_s(v.2, cosa), cosb),
        ),
    )
}

/// Carry a vector back out of the rotated frame: the linear inverse of
/// `rotate_inv_s` (its matrix transpose).
pub open spec fn rotate_s(v: (int, int, int), a: int, b: int) -> (int, int, int) {
    let cosa = cos_s(a);
    let cosb = cos_s(b);
    let sina = sin_s(a);
    let sinb = sin_s(b);
    (
        fx_add_s(fx_mul_s(v.0, cosb), fx_mul_s(v.2, fx_neg_s(sinb))),
        fx_add_s(
            fx_add_s(fx_mul_s(fx_mul_s(v.0, sina), sinb), fx_mul_s(v.1, cosa)),
            fx_mul_s(fx_mul_s(v.2, sina), cosb),
        ),
        fx_add_s(
            fx_add_s(fx_mul_s(fx_mul_s(v.0, cosa), sinb), fx_mul_s(v.1, fx_neg_s(sina))),
            fx_mul_s(fx_mul_s(v.2, cosa), cosb),
        ),
    )
}

impl Vector3 {
    pub fn new(x: i64, y: i64, z: i64) -> (r: Vector3)
        ensures
            r == (Vector3 { x, y, z }),
    {
        Vector3 { x, y, z }
    }

    pub fn dot(self, v: Vector3) -> (r: i64)
        ensures
            r == dot_s(v3(self), v3(v)),
    {
        fx_add(fx_add(fx_mul(self.x, v.x), fx_mul(self.y, v.y)), fx_mul(self.z, v.z))
    }

    fn len_sq(self) -> (r: i64)
        ensures
            r == len_sq_s(v3(self)),
    {
        self.dot(self)
    }

    pub fn len(self) -> (r: i64)
        ensures
            r == len_s(v3(self)),
            r >= 0,
    {
        fx_sqrt(self.len_sq())
    }

    pub fn cross(self, v: Vector3) -> (r: Vector3)
        ensures
            v3(r) == cross_s(v3(self), v3(v)),
    {
        Vector3 {
            x: fx_sub(fx_mul(self.y, v.z), fx_mul(self.z, v.y)),
            y: fx_sub(fx_mul(self.z, v.x), fx_mul(self.x, v.z)),
            z: fx_sub(fx_mul(self.x, v.y), fx_mul(self.y, v.x)),
        }
    }

    /// Scale to unit length; the zero vector normalizes to itself.
    pub fn normalize(self) -> (r: Vector3)
        ensures
            v3(r) == normalize_s(v3(self)),
    {
        let len = self.len();
        if len == 0 {
            Vector3::new(0, 0, 0)
        } else {
            Vector3 {
                x: fx_div(self.x, len),
                y: fx_div(self.y, len),
                z: fx_div(self.z, len),
            }
        }
    }

    /// Rotate into the frame of a body rotated by angles (a, b).
    pub fn rotate_inv(self, a: i64, b: i64) -> (r: Vector3)
        ensures
            v3(r) == rotate_inv_s(v3(self), a as int, b as int),
    {
        let cosa = cos_fx(a);
        let cosb = cos_fx(b);
        let sina = sin_fx(a);
        let sinb = sin_fx(b);
        Vector3 {
            x: fx_add(
                fx_add(fx_mul(self.x, cosb), fx_mul(fx_mul(self.y, sina), sinb)),
                fx_mul(fx_mul(self.z, cosa), sinb),
            ),
            y: fx_add(fx_mul(self.y, cosa), fx_mul(self.z, fx_neg(sina))),
            z: fx_add(
                fx_add(fx_mul(self.x, fx_neg(sinb)), fx_mul(fx_mul(self.y, cosb), sina)),
                fx_mul(fx_mul(self.z, cosa), cosb),
            ),
        }
    }

    /// Rotate back out of the rotated frame (inverse of `rotate_inv`).
    pub fn rotate(self, a: i64, b: i64) -> (r: Vector3)
        ensures
            v3(r) == rotate_s(v3(self), a as int, b as int),
    {
        let cosa = cos_fx(a);
        let cosb = cos_fx(b);
        let sina = sin_fx(a);
        let sinb = sin_fx(b);
        Vector3 {
            x: fx_add(fx_mul(self.x, cosb), fx_mul(self.z, fx_neg(sinb))),
            y: fx_add(
                fx_add(fx_mul(fx_mul(self.x, sina), sinb), fx_mul(self.y, cosa)),
                fx_mul(fx_mul(self.z, sina), cosb),
            ),
            z: fx_add(
                fx_add(fx_mul(fx_mul(self.x, cosa), sinb), fx_mul(self.y, fx_neg(sina))),
                fx_mul(fx_mul(self.z, cosa), cosb),
            ),
        }
    }

    pub fn add(self, other: Vector3) -> (r: Vector3)
        ensures
            v3(r) == add_s(v3(self), v3(other)),
    {
        Vector3 {
            x: fx_add(self.x, other.x),
            y: fx_add(self.y, other.y),
            z: fx_add(self.z, other.z),
        }
    }

    pub fn neg(self) -> (r: Vector3)
        ensures
            v3(r) == neg_s(v3(self)),
    {
        Vector3 { x: fx_neg(self.x), y: fx_neg(self.y), z: fx_neg(self.z) }
    }

    pub fn sub(self, other: Vector3) -> (r: Vector3)
        ensures
            v3(r) == sub_s(v3(self), v3(other)),
    {
        Vector3 {
            x: fx_sub(self.x, other.x),
            y: fx_sub(self.y, other.y),
            z: fx_sub(self.z, other.z),
        }
    }

    /// Scale by a scalar.
    pub fn mul(self, num: i64) -> (r: Vector3)
        ensures
            v3(r) == scale_s(v3(self), num as int),
    {
        Vector3 { x: fx_mul(self.x, num), y: fx_mul(self.y, num), z: fx_mul(self.z, num) }
    }

    /// Divide by a scalar, as scaling by its reciprocal.
    pub fn div(self, num: i64) -> (r: Vector3)
        ensures
            v3(r) == scale_s(v3(self), fx_div_s(crate::fx::FX_ONE as int, num as int)),
    {
        self.mul(fx_div(crate::fx::FX_ONE, num))
    }
}

} // verus!
