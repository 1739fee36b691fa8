//! Tests for the geometry, the rotations, the colors and the shading.

use raytrace::color::Color;
use raytrace::fx::FX_ONE;
use raytrace::shape::{Light, Plane, Shape, Sphere, Torus};
use raytrace::trace::{diffuse, World};
use raytrace::vec3::Vector3;

const S: i64 = FX_ONE;

fn close(a: i64, b: i64, tol: i64) -> bool {
    let d = a - b;
    -tol <= d && d <= tol
}

fn vec_close(a: Vector3, b: Vector3, tol: i64) -> bool {
    close(a.x, b.x, tol) && close(a.y, b.y, tol) && close(a.z, b.z, tol)
}

#[test]
fn testy() {
    assert!(true);
}

#[test]
fn test_plane() {
    let v1 = Vector3 { x: S, y: 0, z: 0 };
    let v2 = Vector3 { x: -S, y: 0, z: 0 };
    let origin = Vector3 { x: 0, y: 0, z: 0 };
    let plane = Shape::Plane(Plane { normal: v1, origin_distance: S });
    let (t, n) = plane.intersect_with_normal((v1, origin)).unwrap();
    assert_eq!(t, S);
    assert_eq!(n, v2);
}

#[test]
fn test_trace_nearest() {
    let v = Vector3::new(S, 0, 0);
    let origin = Vector3::new(0, 0, 0);
    let p = Plane { normal: v, origin_distance: S };
    let world = World { shapes: vec![Shape::Plane(p)], lights: vec![] };
    let (idx, t, _n) = world.trace_nearest((v, origin)).unwrap();
    assert_eq!(idx, 0);
    assert_eq!(t, S);
}

#[test]
fn test_sphere() {
    let v1 = Vector3::new(-3 * S, 0, 0);
    let v2 = Vector3::new(S, 0, 0);
    let s = Sphere { centre: Vector3::new(0, 0, 0), radius: S };
    let d = s.intersect((v2, v1)).unwrap();
    assert_eq!(d, 2 * S);
}

#[test]
fn test_plane_parallel_ray_misses() {
    let p = Plane { normal: Vector3::new(S, 0, 0), origin_distance: S };
    let up = Vector3::new(0, S, 0);
    let origin = Vector3::new(0, 0, 0);
    assert!(p.intersect((up, origin)).is_none());
}

#[test]
fn test_torus_intersect_origin() {
    // A torus of major radius 1 and tube radius 1/4 in the x-y plane: a ray
    // along the x axis from (-3, 0, 0) first meets it at x = -5/4.
    let t = Torus {
        radius: S,
        tube_radius: S / 4,
        center: Vector3::new(0, 0, 0),
        rotx: 0,
        roty: 0,
    };
    let ray = (Vector3::new(S, 0, 0), Vector3::new(-3 * S, 0, 0));
    let hit = t.intersect_origin(ray).unwrap();
    assert!(close(hit, 7 * S / 4, S / 8), "hit = {}", hit);
}

#[test]
fn test_rotate_round_trip() {
    let v = Vector3::new(3 * S / 2, -S / 2, 2 * S);
    let a = 7 * S / 10;
    let b = 11 * S / 10;
    let w = v.rotate_inv(a, b).rotate(a, b);
    assert!(vec_close(w, v, 16384), "w = {:?}", w);
    let u = v.rotate(a, b).rotate_inv(a, b);
    assert!(vec_close(u, v, 16384), "u = {:?}", u);
}

#[test]
fn test_color_conversions() {
    let c = Color::from_rgb(255, 0, 0);
    assert_eq!(c, Color { red: S, green: 0, blue: 0 });
    assert_eq!(c.to_rgb(), (255, 0, 0));
    let grey = Color { red: S / 2, green: S / 2, blue: S / 2 };
    assert_eq!(grey.to_rgb(), (127, 127, 127));
}

#[test]
fn test_color_saturating_ops() {
    let w = Color { red: S, green: S, blue: S };
    assert_eq!(w.add(w), w);
    assert_eq!(w.scale(3 * S), w);
    let black = Color { red: 0, green: 0, blue: 0 };
    assert_eq!(black.mul(w), black);
    assert_eq!(black.scale(5 * S), black);
    assert_eq!(black.add(black), black);
}

#[test]
fn test_trace_lit_sphere() {
    // A unit sphere at the origin, a white light on the ray's side: the hit
    // point, normal and diffuse factor are exact in fixed point, and the
    // saturated sum is full red plus nothing.
    let sphere = Shape::Sphere(Sphere { centre: Vector3::new(0, 0, 0), radius: S });
    let light = Light {
        position: Vector3::new(-3 * S, 0, 0),
        color: Color { red: S, green: S, blue: S },
    };
    let world = World { shapes: vec![sphere], lights: vec![light] };
    let ray = (Vector3::new(S, 0, 0), Vector3::new(-3 * S, 0, 0));
    let c = world.trace(ray);
    assert_eq!(c, Color { red: S, green: 0, blue: 0 });
}

#[test]
fn test_trace_miss_is_black() {
    let sphere = Shape::Sphere(Sphere { centre: Vector3::new(0, 0, 0), radius: S });
    let world = World { shapes: vec![sphere], lights: vec![] };
    let ray = (Vector3::new(0, S, 0), Vector3::new(-3 * S, 0, 0));
    assert_eq!(world.trace(ray), Color { red: 0, green: 0, blue: 0 });
}

#[test]
fn test_diffuse_inverse_square_falloff() {
    // Same geometry, farther light: the contribution shrinks.
    let sphere = Shape::Sphere(Sphere { centre: Vector3::new(0, 0, 0), radius: S });
    let white = Color { red: S, green: S, blue: S };
    let near = Light { position: Vector3::new(-5 * S, 0, 0), color: white };
    let far = Light { position: Vector3::new(-9 * S, 0, 0), color: white };
    let normal = Vector3::new(-S, 0, 0);
    let point = Vector3::new(-S, 0, 0);
    let cn = diffuse(&sphere, &near, normal, point);
    let cf = diffuse(&sphere, &far, normal, point);
    assert!(cf.red <= cn.red);
    assert!(cf.red < cn.red, "cf = {:?}, cn = {:?}", cf, cn);
}

#[test]
fn test_shadowed_light_is_skipped() {
    // A plane between the point and the light blocks it.
    let blocker = Shape::Plane(Plane { normal: Vector3::new(S, 0, 0), origin_distance: S });
    let world = World { shapes: vec![blocker], lights: vec![] };
    // Shadow ray from the origin toward a light at x = +3: the plane at
    // x = 1 is in the way.
    let clear = world.trace_collision((Vector3::new(S, 0, 0), Vector3::new(0, 0, 0)), 3 * S);
    assert!(!clear);
    // The same ray checked only up to the plane is clear.
    let short = world.trace_collision((Vector3::new(S, 0, 0), Vector3::new(0, 0, 0)), S / 2);
    assert!(short);
}
