//! Surfaces a ray can hit: a closed union of the three variants, with one
//! dispatch function per operation.
//!
//! Every surface answers `intersect` (smallest qualifying distance along a
//! ray), `normal` (outward unit vector at a point) and the combined
//! `intersect_with_normal`; the plane flips its returned normal to face the
//! incoming ray, which downstream shading relies on. Surfaces fall back to
//! a fixed reference color for their diffuse and ambient colors.

use vstd::prelude::*;

pub mod light;
pub mod plane;
pub mod sphere;
pub mod torus;

pub use light::Light;
pub use plane::Plane;
pub use sphere::Sphere;
pub use torus::Torus;

use crate::Ray;
use crate::color::Color;
use crate::fx::FX_ONE;
use crate::opt_hit;
use crate::opt_int;
use crate::vec3::Vector3;
use crate::vec3::add_s;
use crate::vec3::dot_s;
use crate::vec3::neg_s;
use crate::vec3::rotate_inv_s;
use crate::vec3::rotate_s;
use crate::vec3::scale_s;
use crate::vec3::sub_s;
use crate::vec3::v3;

verus! {

/// Cosine band below which a ray counts as parallel to a plane.
pub const ANGLE_EPSILON: i64 = 16;

/// Distance band below which a hit counts as behind or on the ray's
/// origin, preventing self-intersection.
pub const INTERSECT_EPSILON: i64 = 16;

/// The coordinate origin.
pub fn origin() -> (v: Vector3)
    ensures
        v == (Vector3 { x: 0i64, y: 0i64, z: 0i64 }),
{
    Vector3 { x: 0, y: 0, z: 0 }
}

/// A surface in the scene.
#[derive(Debug, Clone, Copy)]
pub enum Shape {
    Plane(Plane),
    Sphere(Sphere),
    Torus(Torus),
}

/// Where a ray meets a surface: the smallest distance beyond the
/// intersection band, or nothing.
#[verifier::opaque]
pub open spec fn shape_intersect_s(s: Shape, ray: Ray) -> Option<int> {
    match s {
        Shape::Plane(p) => plane::plane_intersect_s(p, ray),
        Shape::Sphere(sp) => sphere::sphere_intersect_s(sp, ray),
        Shape::Torus(t) => {
            let (d, o) = torus::torus_local_ray_s(t, ray);
            torus::torus_intersect_origin_s(
                t,
                (
                    Vector3 { x: d.0 as i64, y: d.1 as i64, z: d.2 as i64 },
                    Vector3 { x: o.0 as i64, y: o.1 as i64, z: o.2 as i64 },
                ),
            )
        },
    }
}

/// The outward normal of a surface at a point.
#[verifier::opaque]
pub open spec fn shape_normal_s(s: Shape, point: (int, int, int)) -> (int, int, int) {
    match s {
        Shape::Plane(p) => v3(p.normal),
        Shape::Sphere(sp) => sphere::sphere_normal_s(sp, point),
        Shape::Torus(t) => rotate_s(
            torus::torus_normal_origin_s(
                t,
                rotate_inv_s(sub_s(point, v3(t.center)), t.rotx as int, t.roty as int),
            ),
            t.rotx as int,
            t.roty as int,
        ),
    }
}

/// Intersection and normal together. The plane's normal is flipped when it
/// faces away from the incoming ray; the sphere's comes from the hit
/// point; the torus's is found in its local frame, at the hit point of the
/// local ray, and rotated back out.
#[verifier::opaque]
pub open spec fn shape_intersect_with_normal_s(s: Shape, ray: Ray) -> Option<
    (int, (int, int, int)),
> {
    match s {
        Shape::Plane(p) => match plane::plane_intersect_s(p, ray) {
            Option::Some(t) => {
                let n = if dot_s(v3(ray.0), v3(p.normal)) > 0 {
                    neg_s(v3(p.normal))
                } else {
                    v3(p.normal)
                };
                Option::Some((t, n))
            },
            Option::None => Option::None,
        },
        Shape::Sphere(sp) => match sphere::sphere_intersect_s(sp, ray) {
            Option::Some(t) => Option::Some(
                (t, sphere::sphere_normal_s(sp, add_s(v3(ray.1), scale_s(v3(ray.0), t)))),
            ),
            Option::None => Option::None,
        },
        Shape::Torus(t) => {
            let (d, o) = torus::torus_local_ray_s(t, ray);
            let moved_dir = Vector3 { x: d.0 as i64, y: d.1 as i64, z: d.2 as i64 };
            let moved_origin = Vector3 { x: o.0 as i64, y: o.1 as i64, z: o.2 as i64 };
            match torus::torus_intersect_origin_s(t, (moved_dir, moved_origin)) {
                Option::Some(tt) => Option::Some(
                    (
                        tt,
                        rotate_s(
                            torus::torus_normal_origin_s(
                                t,
                                add_s(v3(moved_origin), scale_s(v3(moved_dir), tt)),
                            ),
                            t.rotx as int,
                            t.roty as int,
                        ),
                    ),
                ),
                Option::None => Option::None,
            }
        },
    }
}

impl Shape {
    /// Distance along the ray to this surface, if it is hit in front of
    /// the ray's origin.
    pub fn intersect(&self, ray: Ray) -> (r: Option<i64>)
        ensures
            opt_int(r) == shape_intersect_s(*self, ray),
    {
        proof {
            reveal(shape_intersect_s);
        }
        match self {
            Shape::Plane(p) => p.intersect(ray),
            Shape::Sphere(s) => s.intersect(ray),
            Shape::Torus(t) => t.intersect(ray),
        }
    }

    /// The outward normal at a surface point.
    pub fn normal(&self, point: Vector3) -> (n: Vector3)
        ensures
            v3(n) == shape_normal_s(*self, v3(point)),
    {
        proof {
            reveal(shape_normal_s);
        }
        match self {
            Shape::Plane(p) => p.normal(point),
            Shape::Sphere(s) => s.normal(point),
            Shape::Torus(t) => t.normal(point),
        }
    }

    /// Intersection distance and the normal at the hit point.
    pub fn intersect_with_normal(&self, ray: Ray) -> (r: Option<(i64, Vector3)>)
        ensures
            opt_hit(r) == shape_intersect_with_normal_s(*self, ray),
    {
        proof {
            reveal(shape_intersect_with_normal_s);
        }
        match self {
            Shape::Plane(p) => {
                let (dir, _origin) = ray;
                match p.intersect(ray) {
                    Option::Some(t) => {
                        let n = if dir.dot(p.normal) > 0 {
                            p.normal(dir).neg()
                        } else {
                            p.normal(dir)
                        };
                        Option::Some((t, n))
                    },
                    Option::None => Option::None,
                }
            },
            Shape::Sphere(s) => {
                let (dir, origin) = ray;
                match s.intersect(ray) {
                    Option::Some(t) => Option::Some((t, s.normal(origin.add(dir.mul(t))))),
                    Option::None => Option::None,
                }
            },
            Shape::Torus(t) => t.intersect_with_normal(ray),
        }
    }

    /// The color the surface scatters under direct light: the fixed
    /// reference color.
    pub fn color_diffuse(&self) -> (c: Color)
        ensures
            c == (Color { red: FX_ONE as i64, green: 0i64, blue: 0i64 }),
    {
        crate::color::red()
    }

    /// The color the surface shows under ambient light: the fixed
    /// reference color.
    pub fn color_ambient(&self) -> (c: Color)
        ensures
            c == (Color { red: FX_ONE as i64, green: 0i64, blue: 0i64 }),
    {
        crate::color::red()
    }
}

} // verus!
