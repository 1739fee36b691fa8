//! An infinite plane, as a unit normal and a signed distance from the
//! coordinate origin.

use vstd::prelude::*;

use crate::Ray;
use crate::fx::fx_div;
use crate::fx::fx_div_s;
use crate::fx::fx_sub;
use crate::fx::fx_sub_s;
use crate::opt_int;
use crate::shape::ANGLE_EPSILON;
use crate::shape::INTERSECT_EPSILON;
use crate::vec3::Vector3;
use crate::vec3::dot_s;
use crate::vec3::v3;

verus! {

/// The normal must point away from the coordinate origin, so that
/// `origin_distance >= 0`.
#[derive(Debug, Clone, Copy)]
pub struct Plane {
    pub normal: Vector3,
    pub origin_distance: i64,
}

/// Where a ray meets the plane: none when the ray runs parallel to it
/// (cosine inside the angle band) or when the hit would lie behind or on
/// the ray's origin.
pub open spec fn plane_intersect_s(p: Plane, ray: Ray) -> Option<int> {
    let cosine = dot_s(v3(ray.0), v3(p.normal));
    if cosine < ANGLE_EPSILON && cosine > -ANGLE_EPSILON {
        Option::None
    } else {
        let t = fx_div_s(
            fx_sub_s(p.origin_distance as int, dot_s(v3(ray.1), v3(p.normal))),
            cosine,
        );
        if t < INTERSECT_EPSILON {
            Option::None
        } else {
            Option::Some(t)
        }
    }
}

impl Plane {
    /// Distance along the ray to the plane, if the ray meets it in front of
    /// its origin. A `Some(t)` always satisfies t >= INTERSECT_EPSILON.
    pub fn intersect(&self, ray: Ray) -> (r: Option<i64>)
        ensures
            opt_int(r) == plane_intersect_s(*self, ray),
            r is Some ==> r->0 >= INTERSECT_EPSILON,
    {
        let (ray_dir, ray_origin) = ray;
        let intersect_cosine = ray_dir.dot(self.normal);
        if intersect_cosine < ANGLE_EPSILON && intersect_cosine > -ANGLE_EPSILON {
            return Option::None;
        }
        let s = fx_sub(self.origin_distance, ray_origin.dot(self.normal));
        let t = fx_div(s, intersect_cosine);
        if t < INTERSECT_EPSILON {
            Option::None
        } else {
            Option::Some(t)
        }
    }

    /// The stored plane normal, at every point.
    pub fn normal(&self, _point: Vector3) -> (n: Vector3)
        ensures
            n == self.normal,
    {
        self.normal
    }
}

} // verus!
