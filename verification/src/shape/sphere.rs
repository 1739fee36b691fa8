//! A sphere, as a centre and a radius.

use vstd::prelude::*;

use crate::Ray;
use crate::fx::TWO_FX;
use crate::fx::fx_add;
use crate::fx::fx_add_s;
use crate::fx::fx_mul;
use crate::fx::fx_mul_s;
use crate::fx::fx_neg;
use crate::fx::fx_neg_s;
use crate::fx::fx_sqrt;
use crate::fx::fx_sqrt_s;
use crate::fx::fx_sub;
use crate::fx::fx_sub_s;
use crate::opt_int;
use crate::shape::INTERSECT_EPSILON;
use crate::vec3::Vector3;
use crate::vec3::dot_s;
use crate::vec3::normalize_s;
use crate::vec3::sub_s;
use crate::vec3::v3;

verus! {

#[derive(Debug, Clone, Copy)]
pub struct Sphere {
    pub centre: Vector3,
    pub radius: i64,
}

/// Where a ray meets the sphere, by the quadratic in the travelled
/// distance (the direction is assumed unit length): the nearer candidate
/// beyond the intersection band wins, then the farther one.
pub open spec fn sphere_intersect_s(s: Sphere, ray: Ray) -> Option<int> {
    let c = fx_sub_s(
        fx_sub_s(
            fx_add_s(dot_s(v3(ray.1), v3(ray.1)), dot_s(v3(s.centre), v3(s.centre))),
            fx_mul_s(TWO_FX as int, dot_s(v3(ray.1), v3(s.centre))),
        ),
        fx_mul_s(s.radius as int, s.radius as int),
    );
    let b = dot_s(v3(ray.0), sub_s(v3(ray.1), v3(s.centre)));
    let dsq = fx_sub_s(fx_mul_s(b, b), c);
    if dsq <= 0 {
        Option::None
    } else {
        let d = fx_sqrt_s(dsq);
        let s1 = fx_add_s(fx_neg_s(b), d);
        let s2 = fx_sub_s(fx_neg_s(b), d);
        if s1 < s2 && s1 > INTERSECT_EPSILON {
            Option::Some(s1)
        } else if s2 > INTERSECT_EPSILON {
            Option::Some(s2)
        } else if s1 > INTERSECT_EPSILON {
            Option::Some(s1)
        } else {
            Option::None
        }
    }
}

/// The outward normal: the direction from the centre to the point.
pub open spec fn sphere_normal_s(s: Sphere, point: (int, int, int)) -> (int, int, int) {
    normalize_s(sub_s(point, v3(s.centre)))
}

impl Sphere {
    /// Distance along the ray to the sphere, if it hits in front of the
    /// ray's origin. A `Some(t)` always satisfies t > INTERSECT_EPSILON.
    pub fn intersect(&self, ray: Ray) -> (r: Option<i64>)
        ensures
            opt_int(r) == sphere_intersect_s(*self, ray),
            r is Some ==> r->0 > INTERSECT_EPSILON,
    {
        let (ray_dir, ray_origin) = ray;
        let c = fx_sub(
            fx_sub(
                fx_add(ray_origin.dot(ray_origin), self.centre.dot(self.centre)),
                fx_mul(TWO_FX, ray_origin.dot(self.centre)),
            ),
            fx_mul(self.radius, self.radius),
        );
        let b = ray_dir.dot(ray_origin.sub(self.centre));
        let dsq = fx_sub(fx_mul(b, b), c);
        if dsq <= 0 {
            return Option::None;
        }
        let d = fx_sqrt(dsq);
        let s1 = fx_add(fx_neg(b), d);
        let s2 = fx_sub(fx_neg(b), d);
        if s1 < s2 {
            if s1 > INTERSECT_EPSILON {
                return Option::Some(s1);
            }
        }
        if s2 > INTERSECT_EPSILON {
            Option::Some(s2)
        } else {
            if s1 > INTERSECT_EPSILON {
                Option::Some(s1)
            } else {
                Option::None
            }
        }
    }

    /// The outward unit normal at a surface point.
    pub fn normal(&self, point: Vector3) -> (n: Vector3)
        ensures
            v3(n) == sphere_normal_s(*self, v3(point)),
    {
        point.sub(self.centre).normalize()
    }
}

} // verus!
