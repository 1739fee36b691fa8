//! A torus: major radius, tube radius, a centre translation and two
//! rotation angles relative to the canonical torus, which lies in the x-y
//! plane centred on the origin (the tube radius is smaller than the major
//! radius).
//!
//! Intersection carries the ray into the torus's local frame, derives the
//! quartic that the implicit torus equation gives along the ray and takes
//! its smallest positive real root; the normal is found in the local frame
//! and rotated back out.

use vstd::prelude::*;

use crate::Ray;
use crate::cubic::smallest_positive_real_s;
use crate::cubic::solve_quartic_smallest_positive_real;
use crate::cubic::quartic_roots_s;
use crate::cubic::EPSILON;
use crate::fx::FOUR_FX;
use crate::fx::FX_ONE;
use crate::fx::TWO_FX;
use crate::fx::fx_add;
use crate::fx::fx_add_s;
use crate::fx::fx_mul;
use crate::fx::fx_mul_s;
use crate::fx::fx_sub;
use crate::fx::fx_sub_s;
use crate::opt_int;
use crate::vec3::Vector3;
use crate::vec3::dot_s;
use crate::vec3::normalize_s;
use crate::vec3::rotate_inv_s;
use crate::vec3::rotate_s;
use crate::vec3::scale_s;
use crate::vec3::sub_s;
use crate::vec3::v3;

verus! {

#[derive(Debug, Clone, Copy)]
pub struct Torus {
    pub radius: i64,
    pub tube_radius: i64,
    pub center: Vector3,
    pub rotx: i64,
    pub roty: i64,
}

/// The quartic coefficients (after the leading 1) that the implicit torus
/// equation gives along a ray through the canonical torus, with a the ray
/// origin and b its direction.
pub open spec fn torus_quartic_s(t: Torus, ray: Ray) -> (int, int, int, int) {
    let b = v3(ray.0);
    let a = v3(ray.1);
    let a_dot_a = dot_s(a, a);
    let a_dot_b = dot_s(a, b);
    let radius2 = fx_mul_s(t.radius as int, t.radius as int);
    let minor2 = fx_mul_s(t.tube_radius as int, t.tube_radius as int);
    let k = fx_sub_s(fx_sub_s(a_dot_a, minor2), radius2);
    (
        fx_mul_s(FOUR_FX as int, a_dot_b),
        fx_mul_s(
            TWO_FX as int,
            fx_add_s(
                fx_add_s(fx_mul_s(fx_mul_s(TWO_FX as int, a_dot_b), a_dot_b), k),
                fx_mul_s(fx_mul_s(fx_mul_s(TWO_FX as int, radius2), b.2), b.2),
            ),
        ),
        fx_mul_s(
            FOUR_FX as int,
            fx_add_s(
                fx_mul_s(k, a_dot_b),
                fx_mul_s(fx_mul_s(fx_mul_s(TWO_FX as int, radius2), a.2), b.2),
            ),
        ),
        fx_add_s(
            fx_mul_s(k, k),
            fx_mul_s(
                fx_mul_s(FOUR_FX as int, radius2),
                fx_sub_s(fx_mul_s(a.2, a.2), minor2),
            ),
        ),
    )
}

/// Where a ray meets the canonical torus: the smallest positive real root
/// of the torus quartic.
pub open spec fn torus_intersect_origin_s(t: Torus, ray: Ray) -> Option<int> {
    let (t1, t2, t3, t4) = torus_quartic_s(t, ray);
    smallest_positive_real_s(quartic_roots_s(FX_ONE as int, t1, t2, t3, t4))
}

/// The outward normal of the canonical torus: from the nearest point of
/// the central ring to the surface point.
pub open spec fn torus_normal_origin_s(t: Torus, point: (int, int, int)) -> (int, int, int) {
    let ring = scale_s(normalize_s((point.0, point.1, 0)), t.radius as int);
    normalize_s(sub_s(point, ring))
}

/// A ray carried into the torus's local frame: origin shifted by the
/// centre, both parts counter-rotated.
pub open spec fn torus_local_ray_s(t: Torus, ray: Ray) -> ((int, int, int), (int, int, int)) {
    (
        rotate_inv_s(v3(ray.0), t.rotx as int, t.roty as int),
        rotate_inv_s(sub_s(v3(ray.1), v3(t.center)), t.rotx as int, t.roty as int),
    )
}

impl Torus {
    /// Where a ray meets this torus in canonical position, ignoring the
    /// centre and rotation fields. A `Some(t)` always satisfies t > EPSILON.
    pub fn intersect_origin(&self, ray: Ray) -> (r: Option<i64>)
        ensures
            opt_int(r) == torus_intersect_origin_s(*self, ray),
            r is Some ==> r->0 > EPSILON,
    {
        let (b, a) = ray;
        let a_dot_a = a.dot(a);
        let a_dot_b = a.dot(b);
        let radius2 = fx_mul(self.radius, self.radius);
        let minor_radius2 = fx_mul(self.tube_radius, self.tube_radius);
        let k = fx_sub(fx_sub(a_dot_a, minor_radius2), radius2);
        let t1 = fx_mul(FOUR_FX, a_dot_b);
        let t2 = fx_mul(
            TWO_FX,
            fx_add(
                fx_add(fx_mul(fx_mul(TWO_FX, a_dot_b), a_dot_b), k),
                fx_mul(fx_mul(fx_mul(TWO_FX, radius2), b.z), b.z),
            ),
        );
        let t3 = fx_mul(
            FOUR_FX,
            fx_add(fx_mul(k, a_dot_b), fx_mul(fx_mul(fx_mul(TWO_FX, radius2), a.z), b.z)),
        );
        let t4 = fx_add(
            fx_mul(k, k),
            fx_mul(fx_mul(FOUR_FX, radius2), fx_sub(fx_mul(a.z, a.z), minor_radius2)),
        );
        solve_quartic_smallest_positive_real(FX_ONE, t1, t2, t3, t4)
    }

    /// The outward normal of the canonical torus at a local surface point.
    pub fn normal_origin(&self, point: Vector3) -> (n: Vector3)
        ensures
            v3(n) == torus_normal_origin_s(*self, v3(point)),
    {
        let point_on_ring = Vector3::new(point.x, point.y, 0).normalize().mul(self.radius);
        point.sub(point_on_ring).normalize()
    }

    /// Where a ray meets this torus: the ray is carried into the local
    /// frame and tested against the canonical torus.
    pub fn intersect(&self, ray: Ray) -> (r: Option<i64>)
        ensures
            opt_int(r) == torus_intersect_origin_s(
                *self,
                ({
                    let (d, o) = torus_local_ray_s(*self, ray);
                    (
                        Vector3 { x: d.0 as i64, y: d.1 as i64, z: d.2 as i64 },
                        Vector3 { x: o.0 as i64, y: o.1 as i64, z: o.2 as i64 },
                    )
                }),
            ),
            r is Some ==> r->0 > EPSILON,
    {
        let (b, a) = ray;
        self.intersect_origin(
            (
                b.rotate_inv(self.rotx, self.roty),
                a.sub(self.center).rotate_inv(self.rotx, self.roty),
            ),
        )
    }

    /// The outward normal at a world-space surface point: found in the
    /// local frame and rotated back out.
    pub fn normal(&self, point: Vector3) -> (n: Vector3)
        ensures
            v3(n) == rotate_s(
                torus_normal_origin_s(
                    *self,
                    rotate_inv_s(sub_s(v3(point), v3(self.center)), self.rotx as int,
                    self.roty as int),
                ),
                self.rotx as int,
                self.roty as int,
            ),
    {
        let local = point.sub(self.center).rotate_inv(self.rotx, self.roty);
        self.normal_origin(local).rotate(self.rotx, self.roty)
    }

    /// Intersection and normal together: the hit point is rebuilt in the
    /// local frame, so the normal comes from the canonical torus and is
    /// rotated back into world space.
    pub fn intersect_with_normal(&self, ray: Ray) -> (r: Option<(i64, Vector3)>)
        ensures
            ({
                let (d, o) = torus_local_ray_s(*self, ray);
                let moved_dir = Vector3 { x: d.0 as i64, y: d.1 as i64, z: d.2 as i64 };
                let moved_origin = Vector3 { x: o.0 as i64, y: o.1 as i64, z: o.2 as i64 };
                match r {
                    Option::Some((t, n)) => {
                        &&& opt_int(Option::Some(t)) == torus_intersect_origin_s(
                            *self,
                            (moved_dir, moved_origin),
                        )
                        &&& t > EPSILON
                        &&& v3(n) == rotate_s(
                            torus_normal_origin_s(
                                *self,
                                crate::vec3::add_s(v3(moved_origin), scale_s(v3(moved_dir), t as int)),
                            ),
                            self.rotx as int,
                            self.roty as int,
                        )
                    },
                    Option::None => torus_intersect_origin_s(*self, (moved_dir, moved_origin))
                        is None,
                }
            }),
    {
        let (dir, origin) = ray;
        let moved_dir = dir.rotate_inv(self.rotx, self.roty);
        let moved_origin = origin.sub(self.center).rotate_inv(self.rotx, self.roty);
        match self.intersect_origin((moved_dir, moved_origin)) {
            Option::Some(s) => {
                let n = self.normal_origin(moved_origin.add(moved_dir.mul(s))).rotate(
                    self.rotx,
                    self.roty,
                );
                Option::Some((s, n))
            },
            Option::None => Option::None,
        }
    }
}

} // verus!
