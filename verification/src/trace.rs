//! The world: surfaces and lights, nearest-hit resolution, shadow testing
//! and Lambertian-plus-ambient shading.
//!
//! `trace_nearest` keeps the first surface attaining the minimum hit
//! distance; `trace_collision` reports a clear path below a distance bound;
//! `trace_lights` keeps the lights on the normal's side whose shadow rays
//! are clear; `trace` sums their diffuse contributions and one ambient
//! term, saturating per channel.

use vstd::prelude::*;

use crate::Ray;
use crate::color::Color;
use crate::color::c3;
use crate::color::color_add_s;
use crate::color::color_mul_s;
use crate::color::color_scale_s;
use crate::fx::fx_div;
use crate::fx::fx_div_s;
use crate::fx::fx_mul;
use crate::fx::fx_mul_s;
use crate::opt_hit;
use crate::shape::Light;
use crate::shape::Shape;
use crate::shape::shape_intersect_s;
use crate::shape::shape_intersect_with_normal_s;
use crate::vec3::Vector3;
use crate::vec3::add_s;
use crate::vec3::dot_s;
use crate::vec3::len_s;
use crate::vec3::normalize_s;
use crate::vec3::scale_s;
use crate::vec3::sub_s;
use crate::vec3::v3;

verus! {

/// Gain applied to every diffuse contribution (the scalar 5).
pub const K_DIFFUSE: i64 = 83886080;

/// Gain applied to the one ambient term (the scalar 0.1).
pub const K_AMBIENT: i64 = 1677721;

/// The surfaces and lights of a scene; read-only for the duration of a
/// render.
pub struct World {
    pub shapes: Vec<Shape>,
    pub lights: Vec<Light>,
}

/// The diffuse gain of one light at one surface point: the Lambertian
/// cosine (clamped at zero for lights behind the surface), scaled by
/// K_DIFFUSE and by inverse-square falloff in the light's distance.
pub open spec fn diffuse_factor_s(normal: (int, int, int), point: (int, int, int), light_pos: (
    int,
    int,
    int,
)) -> int {
    let ray_to_light = sub_s(light_pos, point);
    let distance = len_s(ray_to_light);
    let cosine = dot_s(normal, normalize_s(ray_to_light));
    let lit = if cosine < 0 {
        0
    } else {
        cosine
    };
    fx_div_s(fx_mul_s(K_DIFFUSE as int, lit), fx_mul_s(distance, distance))
}

/// The diffuse contribution of one light: the surface's diffuse color
/// filtered by the light's color, scaled by the diffuse gain.
pub open spec fn diffuse_s(s: Shape, l: Light, normal: (int, int, int), point: (int, int, int)) -> (
    int,
    int,
    int,
) {
    color_scale_s(
        color_mul_s(c3(shape_diffuse_color_s(s)), c3(l.color)),
        diffuse_factor_s(normal, point, v3(l.position)),
    )
}

/// The diffuse color a surface reports (the fixed reference color).
pub open spec fn shape_diffuse_color_s(s: Shape) -> Color {
    Color { red: crate::fx::FX_ONE as i64, green: 0i64, blue: 0i64 }
}

/// The ambient color a surface reports (the fixed reference color).
pub open spec fn shape_ambient_color_s(s: Shape) -> Color {
    Color { red: crate::fx::FX_ONE as i64, green: 0i64, blue: 0i64 }
}

/// The ambient term: the surface's ambient color scaled by K_AMBIENT.
pub open spec fn ambient_s(s: Shape) -> (int, int, int) {
    color_scale_s(c3(shape_ambient_color_s(s)), K_AMBIENT as int)
}

/// Whether no surface blocks a ray strictly before max_distance.
pub open spec fn collision_free_s(shapes: Seq<Shape>, ray: Ray, max_distance: int) -> bool {
    forall|j: int|
        0 <= j < shapes.len() ==> !match #[trigger] shape_intersect_s(shapes[j], ray) {
            Option::Some(t) => t < max_distance,
            Option::None => false,
        }
}

/// Whether a light reaches a surface point: it lies on the normal's side
/// and its shadow ray is clear up to the light's distance.
pub open spec fn light_visible_s(
    shapes: Seq<Shape>,
    point: (int, int, int),
    normal: (int, int, int),
    l: Light,
) -> bool {
    let ray_to_light = sub_s(v3(l.position), point);
    if dot_s(ray_to_light, normal) < 0 {
        false
    } else {
        collision_free_s(
            shapes,
            (
                Vector3 {
                    x: normalize_s(ray_to_light).0 as i64,
                    y: normalize_s(ray_to_light).1 as i64,
                    z: normalize_s(ray_to_light).2 as i64,
                },
                Vector3 { x: point.0 as i64, y: point.1 as i64, z: point.2 as i64 },
            ),
            len_s(ray_to_light),
        )
    }
}

/// The lights of a sequence that reach a surface point, in order.
pub open spec fn visible_lights_s(
    shapes: Seq<Shape>,
    lights: Seq<Light>,
    point: (int, int, int),
    normal: (int, int, int),
) -> Seq<Light>
    decreases lights.len(),
{
    if lights.len() == 0 {
        Seq::empty()
    } else {
        let rest = visible_lights_s(shapes, lights.drop_last(), point, normal);
        if light_visible_s(shapes, point, normal, lights.last()) {
            rest.push(lights.last())
        } else {
            rest
        }
    }
}

/// The sum of the diffuse contributions of a sequence of lights, saturated
/// per channel, starting from black.
pub open spec fn diffuse_sum_s(
    s: Shape,
    lights: Seq<Light>,
    normal: (int, int, int),
    point: (int, int, int),
) -> (int, int, int)
    decreases lights.len(),
{
    if lights.len() == 0 {
        (0int, 0int, 0int)
    } else {
        color_add_s(
            diffuse_sum_s(s, lights.drop_last(), normal, point),
            diffuse_s(s, lights.last(), normal, point),
        )
    }
}

/// The color a ray sees: black on a miss; on a hit, the diffuse sum of the
/// visible lights plus one ambient term.
pub open spec fn trace_s(w: &World, ray: Ray) -> (int, int, int) {
    match nearest_hit_s(w.shapes@, ray) {
        Option::Some((i, t, n)) => {
            let point = add_s(v3(ray.1), scale_s(v3(ray.0), t));
            let s = w.shapes@[i];
            let lit = visible_lights_s(w.shapes@, w.lights@, point, n);
            color_add_s(diffuse_sum_s(s, lit, n, point), ambient_s(s))
        },
        Option::None => (0int, 0int, 0int),
    }
}

/// The first surface attaining the minimum hit distance: its index, the
/// distance and the returned normal.
pub open spec fn nearest_hit_s(shapes: Seq<Shape>, ray: Ray) -> Option<
    (int, int, (int, int, int)),
>
    decreases shapes.len(),
{
    if shapes.len() == 0 {
        Option::None
    } else {
        let rest = nearest_hit_s(shapes.drop_last(), ray);
        let j = shapes.len() - 1;
        match shape_intersect_with_normal_s(shapes.last(), ray) {
            Option::Some((t, n)) => match rest {
                Option::Some((bi, bt, bn)) => if t < bt {
                    Option::Some((j, t, n))
                } else {
                    rest
                },
                Option::None => Option::Some((j, t, n)),
            },
            Option::None => rest,
        }
    }
}

impl World {
    /// The nearest surface a ray hits, with its distance and normal; ties
    /// are broken in favour of the earliest surface.
    pub fn trace_nearest(&self, ray: Ray) -> (r: Option<(usize, i64, Vector3)>)
        ensures
            ({
                let m = nearest_hit_s(self.shapes@, ray);
                match r {
                    Option::Some((i, t, n)) => m == Option::Some(
                        (i as int, t as int, v3(n)),
                    ) && i < self.shapes.len(),
                    Option::None => m is None,
                }
            }),
    {
        let mut closest: Option<(usize, i64, Vector3)> = Option::None;
        let mut i: usize = 0;
        while i < self.shapes.len()
            invariant
                i <= self.shapes.len(),
                ({
                    let m = nearest_hit_s(self.shapes@.subrange(0, i as int), ray);
                    match closest {
                        Option::Some((ci, ct, cn)) => m == Option::Some(
                            (ci as int, ct as int, v3(cn)),
                        ) && ci < i,
                        Option::None => m is None,
                    }
                }),
            decreases self.shapes.len() - i,
        {
            proof {
                assert(self.shapes@.subrange(0, i + 1 as int).drop_last() =~= self.shapes@.subrange(
                    0,
                    i as int,
                ));
                assert(self.shapes@.subrange(0, i + 1 as int).last() == self.shapes@[i as int]);
            }
            match self.shapes[i].intersect_with_normal(ray) {
                Option::Some((distance, normal)) => {
                    match closest {
                        Option::Some((_ci, ct, _cn)) => {
                            if distance < ct {
                                closest = Option::Some((i, distance, normal));
                            }
                        },
                        Option::None => {
                            closest = Option::Some((i, distance, normal));
                        },
                    }
                },
                Option::None => {},
            }
            i = i + 1;
        }
        proof {
            assert(self.shapes@.subrange(0, self.shapes@.len() as int) =~= self.shapes@);
        }
        closest
    }

    /// Whether a ray's path is clear of surfaces strictly before
    /// max_distance (hits at or beyond it would not occlude).
    pub fn trace_collision(&self, ray: Ray, max_distance: i64) -> (r: bool)
        ensures
            r == collision_free_s(self.shapes@, ray, max_distance as int),
    {
        let mut i: usize = 0;
        while i < self.shapes.len()
            invariant
                i <= self.shapes.len(),
                forall|j: int|
                    0 <= j < i ==> !match #[trigger] shape_intersect_s(
                        self.shapes@[j],
                        ray,
                    ) {
                        Option::Some(t) => t < max_distance,
                        Option::None => false,
                    },
            decreases self.shapes.len() - i,
        {
            match self.shapes[i].intersect(ray) {
                Option::Some(s) => {
                    if s < max_distance {
                        return false;
                    }
                },
                Option::None => {},
            }
            i = i + 1;
        }
        true
    }

    /// The lights that reach a surface point: on the normal's side and
    /// unoccluded along their shadow rays, in their stored order.
    pub fn trace_lights(&self, point: Vector3, normal: Vector3) -> (r: Vec<Light>)
        ensures
            r@ == visible_lights_s(self.shapes@, self.lights@, v3(point), v3(normal)),
    {
        let mut out: Vec<Light> = Vec::new();
        let mut i: usize = 0;
        while i < self.lights.len()
            invariant
                i <= self.lights.len(),
                out@ == visible_lights_s(
                    self.shapes@,
                    self.lights@.subrange(0, i as int),
                    v3(point),
                    v3(normal),
                ),
            decreases self.lights.len() - i,
        {
            proof {
                assert(self.lights@.subrange(0, i + 1 as int).drop_last() =~= self.lights@.subrange(
                    0,
                    i as int,
                ));
                assert(self.lights@.subrange(0, i + 1 as int).last() == self.lights@[i as int]);
            }
            let l = self.lights[i];
            let ray_to_light = l.position.sub(point);
            if ray_to_light.dot(normal) < 0 {
            } else {
                if self.trace_collision((ray_to_light.normalize(), point), ray_to_light.len()) {
                    out.push(l);
                }
            }
            i = i + 1;
        }
        proof {
            assert(self.lights@.subrange(0, self.lights@.len() as int) =~= self.lights@);
        }
        out
    }

    /// The color a ray sees: black when nothing is hit; otherwise the
    /// saturated sum of each visible light's diffuse contribution and one
    /// ambient term.
    pub fn trace(&self, ray: Ray) -> (c: Color)
        ensures
            c3(c) == trace_s(self, ray),
    {
        let (dir, ray_origin) = ray;
        match self.trace_nearest(ray) {
            Option::Some((idx, t, normal)) => {
                let point = ray_origin.add(dir.mul(t));
                let lights = self.trace_lights(point, normal);
                let mut color = crate::color::black();
                let mut i: usize = 0;
                while i < lights.len()
                    invariant
                        i <= lights.len(),
                        idx < self.shapes.len(),
                        c3(color) == diffuse_sum_s(
                            self.shapes@[idx as int],
                            lights@.subrange(0, i as int),
                            v3(normal),
                            v3(point),
                        ),
                    decreases lights.len() - i,
                {
                    proof {
                        assert(lights@.subrange(0, i + 1 as int).drop_last() =~= lights@.subrange(
                            0,
                            i as int,
                        ));
                        assert(lights@.subrange(0, i + 1 as int).last() == lights@[i as int]);
                    }
                    let d = diffuse(&self.shapes[idx], &lights[i], normal, point);
                    color = color.add(d);
                    i = i + 1;
                }
                proof {
                    assert(lights@.subrange(0, lights@.len() as int) =~= lights@);
                }
                color.add(ambient(&self.shapes[idx]))
            },
            Option::None => crate::color::black(),
        }
    }
}

/// The diffuse contribution of one light at a surface point: the surface's
/// diffuse color filtered by the light's color, scaled by the clamped
/// Lambertian cosine with gain and inverse-square falloff.
pub fn diffuse(shape: &Shape, light: &Light, normal: Vector3, point: Vector3) -> (c: Color)
    ensures
        c3(c) == diffuse_s(*shape, *light, v3(normal), v3(point)),
{
    let ray_to_light = light.position.sub(point);
    let distance = ray_to_light.len();
    let cosine = normal.dot(ray_to_light.normalize());
    let lit = if cosine < 0 {
        0
    } else {
        cosine
    };
    proof {
        crate::fx::lemma_fx_mul_sign(K_DIFFUSE as int, lit as int);
        crate::fx::lemma_fx_mul_sign(distance as int, distance as int);
        crate::fx::lemma_fx_div_sign(
            fx_mul_s(K_DIFFUSE as int, lit as int),
            fx_mul_s(distance as int, distance as int),
        );
    }
    let factor = fx_div(fx_mul(K_DIFFUSE, lit), fx_mul(distance, distance));
    shape.color_diffuse().mul(light.color).scale(factor)
}

/// The ambient term of a surface: its ambient color scaled by K_AMBIENT.
pub fn ambient(shape: &Shape) -> (c: Color)
    ensures
        c3(c) == ambient_s(*shape),
{
    shape.color_ambient().scale(K_AMBIENT)
}

} // verus!
