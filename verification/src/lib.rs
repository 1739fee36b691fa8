//! A ray tracer for implicit surfaces (planes, spheres, tori), built on
//! fixed-point arithmetic so that every arithmetic step has an exact
//! mathematical meaning.
//!
//! Scalars are `i64` values carrying a fraction scaled by `fx::FX_ONE`;
//! every operation saturates at `fx::FX_MAX` and is specified exactly over
//! `int`. The polynomial solvers in `cubic` (quadratic, cubic, quartic)
//! drive the torus intersection; `trace` resolves nearest hits, shadows and
//! Lambertian shading; the algebraic identities behind the root formulas
//! and the rotation round trip are proved in `algebra`.

use vstd::prelude::*;

pub mod algebra;
pub mod color;
pub mod cubic;
pub mod fx;
pub mod shape;
pub mod trace;
pub mod trig;
pub mod vec3;

use crate::vec3::Vector3;

verus! {

/// A ray as (direction, origin); consumers assume the direction has unit
/// length and callers normalize before building one.
pub type Ray = (Vector3, Vector3);

/// An optional scalar, widened for contracts.
pub open spec fn opt_int(o: Option<i64>) -> Option<int> {
    match o {
        Option::Some(t) => Option::Some(t as int),
        Option::None => Option::None,
    }
}

/// An optional hit (distance and normal), widened for contracts.
pub open spec fn opt_hit(o: Option<(i64, Vector3)>) -> Option<(int, (int, int, int))> {
    match o {
        Option::Some((t, n)) => Option::Some((t as int, crate::vec3::v3(n))),
        Option::None => Option::None,
    }
}

} // verus!
