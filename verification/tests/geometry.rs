//! Sphere and plane intersection behavior on concrete geometry.

use in_one_weekend::math::fixed::ONE;
use in_one_weekend::math::space::{Mat3, Pos, Vec3};
use in_one_weekend::math::ray::Ray;
use in_one_weekend::math::color::Color;
use in_one_weekend::material::Material;
use in_one_weekend::material::lambertian::Lambertian;
use in_one_weekend::math::hit::HitResult;
use in_one_weekend::shape::sphere::Sphere;
use in_one_weekend::shape::plane::{FinitePlane, Plane};
use in_one_weekend::rng::wyrand::wyrand_seeded;

fn lam(c: Color) -> Material {
    Material::Lambertian(Lambertian::solid(c))
}

fn unit_sphere() -> Sphere {
    Sphere { center: Vec3 { x: 0, y: 0, z: 0 }, radius: ONE, material: lam(Color(ONE, ONE, ONE)) }
}

#[test]
fn sphere_direct_hit_parameter() {
    let s = unit_sphere();
    let ray = Ray::new(Vec3 { x: 0, y: 0, z: 10 * ONE }, Vec3 { x: 0, y: 0, z: -20 * ONE });
    let hit = s.ray_trace(&ray).expect("ray aimed at the center must hit");
    // enters at z = 1, i.e. after 9 of 20 units: t = 0.45, truncated.
    assert_eq!(hit.t, 29491);
    assert_eq!(hit.normal.x, 0);
    assert_eq!(hit.normal.y, 0);
    assert!(hit.normal.z > 0, "normal points back toward the ray origin");
}

#[test]
fn sphere_hit_lies_on_surface_with_unit_outward_normal() {
    let s = Sphere {
        center: Vec3 { x: 2 * ONE, y: -ONE, z: 0 },
        radius: 3 * ONE / 2,
        material: lam(Color(ONE, ONE, ONE)),
    };
    let rays = [
        Ray::new(Vec3 { x: 2 * ONE, y: -ONE, z: 12 * ONE }, Vec3 { x: 0, y: 0, z: -20 * ONE }),
        Ray::new(Vec3 { x: 9 * ONE, y: 0, z: 2 * ONE }, Vec3 { x: -16 * ONE, y: -2 * ONE, z: -4 * ONE }),
        Ray::new(Vec3 { x: -5 * ONE, y: -2 * ONE, z: -6 * ONE }, Vec3 { x: 14 * ONE, y: 2 * ONE, z: 12 * ONE }),
    ];
    for ray in rays.iter() {
        let hit = s.ray_trace(ray).expect("each test ray is aimed at the sphere");
        let p = hit.pos();
        let dx = (p.x - s.center.x) as f64 / ONE as f64;
        let dy = (p.y - s.center.y) as f64 / ONE as f64;
        let dz = (p.z - s.center.z) as f64 / ONE as f64;
        let dist = (dx * dx + dy * dy + dz * dz).sqrt();
        let radius = s.radius as f64 / ONE as f64;
        assert!(
            (dist - radius).abs() < 1e-3,
            "hit position must lie on the surface: |p-c| = {dist}, r = {radius}"
        );
        let nx = hit.normal.x as f64 / ONE as f64;
        let ny = hit.normal.y as f64 / ONE as f64;
        let nz = hit.normal.z as f64 / ONE as f64;
        let nlen = (nx * nx + ny * ny + nz * nz).sqrt();
        assert!((nlen - 1.0).abs() < 1e-3, "normal must be unit length: {nlen}");
        // outward: the normal is collinear with (p - c) and points away from it.
        assert!(nx * dx + ny * dy + nz * dz > 0.0);
    }
}

#[test]
fn sphere_miss_and_early_reject() {
    let s = unit_sphere();
    // aimed away from the sphere, origin outside: early reject path.
    let away = Ray::new(Vec3 { x: 0, y: 0, z: 10 * ONE }, Vec3 { x: 0, y: 0, z: 20 * ONE });
    assert!(s.ray_trace(&away).is_none());
    // passes beside the sphere.
    let beside = Ray::new(Vec3 { x: 3 * ONE, y: 0, z: 10 * ONE }, Vec3 { x: 0, y: 0, z: -20 * ONE });
    assert!(s.ray_trace(&beside).is_none());
    // too short to reach it.
    let short = Ray::new(Vec3 { x: 0, y: 0, z: 10 * ONE }, Vec3 { x: 0, y: 0, z: -4 * ONE });
    assert!(s.ray_trace(&short).is_none());
}

#[test]
fn sphere_contains_is_open_ball() {
    let s = unit_sphere();
    assert!(s.is_inside(Vec3 { x: 0, y: 0, z: 0 }));
    assert!(s.is_inside(Vec3 { x: 0, y: 0, z: ONE / 2 }));
    assert!(s.is_inside(Vec3 { x: 0, y: 0, z: ONE - 1 }));
    // the boundary itself is outside: |p - c| < r is strict.
    assert!(!s.is_inside(Vec3 { x: 0, y: 0, z: ONE }));
    assert!(!s.is_inside(Vec3 { x: ONE, y: ONE, z: ONE }));
    let off = Sphere {
        center: Vec3 { x: 5 * ONE, y: 0, z: 0 },
        radius: 2 * ONE,
        material: lam(Color(ONE, ONE, ONE)),
    };
    assert!(off.is_inside(Vec3 { x: 6 * ONE, y: 0, z: 0 }));
    assert!(!off.is_inside(Vec3 { x: 5 * ONE, y: 2 * ONE, z: 0 }));
}

#[test]
fn plane_hit_and_halfspace() {
    let p = Plane {
        center: Vec3 { x: 0, y: 0, z: 0 },
        normal: Vec3 { x: 0, y: ONE, z: 0 },
        material: lam(Color(ONE, ONE, ONE)),
    };
    // straight down from y = 5, traveling 10 units: crosses at t = 0.5.
    let ray = Ray::new(Vec3 { x: 0, y: 5 * ONE, z: 0 }, Vec3 { x: 0, y: -10 * ONE, z: 0 });
    let hit = p.ray_trace(&ray).expect("downward ray must hit the ground plane");
    let t = hit.t as f64 / ONE as f64;
    assert!((t - 0.5).abs() < 1e-3, "t = {t}");
    assert_eq!(hit.normal.y, ONE);
    // parallel ray misses.
    let parallel = Ray::new(Vec3 { x: 0, y: 5 * ONE, z: 0 }, Vec3 { x: 10 * ONE, y: 0, z: 0 });
    assert!(p.ray_trace(&parallel).is_none());
    // too short.
    let short = Ray::new(Vec3 { x: 0, y: 5 * ONE, z: 0 }, Vec3 { x: 0, y: -4 * ONE, z: 0 });
    assert!(p.ray_trace(&short).is_none());
    // the half-space below the normal is inside.
    assert!(p.is_inside(Vec3 { x: 7 * ONE, y: -ONE, z: 3 * ONE }));
    assert!(!p.is_inside(Vec3 { x: 7 * ONE, y: ONE, z: 3 * ONE }));
}

#[test]
fn finite_plane_respects_extents() {
    let p = FinitePlane {
        pos: Pos { translation: Vec3 { x: 0, y: 0, z: 0 }, rotation: Mat3::identity() },
        size: (2 * ONE, 4 * ONE),
        material: lam(Color(ONE, ONE, ONE)),
    };
    // down onto the patch center: hit.
    let center_ray = Ray::new(Vec3 { x: 0, y: 5 * ONE, z: 0 }, Vec3 { x: 0, y: -10 * ONE, z: 0 });
    assert!(p.ray_trace(&center_ray).is_some());
    // down just inside the long axis: hit.
    let inside_ray = Ray::new(
        Vec3 { x: 0, y: 5 * ONE, z: 3 * ONE / 2 },
        Vec3 { x: 0, y: -10 * ONE, z: 0 },
    );
    assert!(p.ray_trace(&inside_ray).is_some());
    // down past the short axis's half-extent: miss.
    let outside_ray = Ray::new(
        Vec3 { x: 2 * ONE, y: 5 * ONE, z: 0 },
        Vec3 { x: 0, y: -10 * ONE, z: 0 },
    );
    assert!(p.ray_trace(&outside_ray).is_none());
    assert!(p.is_inside(Vec3 { x: ONE / 2, y: -ONE, z: ONE }));
    assert!(!p.is_inside(Vec3 { x: ONE / 2, y: ONE, z: ONE }));
    assert!(!p.is_inside(Vec3 { x: 3 * ONE, y: -ONE, z: 0 }));
}

#[test]
fn ray_at_from_and_t_for_are_consistent() {
    let ray = Ray::new(Vec3 { x: ONE, y: 2 * ONE, z: 3 * ONE }, Vec3 { x: 4 * ONE, y: 0, z: 0 });
    let mid = ray.at(ONE / 2);
    assert_eq!(mid.x, 3 * ONE);
    assert_eq!(mid.y, 2 * ONE);
    assert_eq!(mid.z, 3 * ONE);
    let t = ray.t_for(mid);
    assert!((t - ONE / 2).abs() <= 2, "recovered parameter: {t}");
    let sub = ray.from(ONE / 2);
    assert_eq!(sub.pos.x, 3 * ONE);
    assert_eq!(sub.dir.x, 2 * ONE);
    assert_eq!(ray.length(), 4 * ONE);
    assert_eq!(ray.length_squared(), 16 * ONE * ONE);
}

#[test]
fn hit_helpers_reflect_flip_and_order() {
    let p = Plane {
        center: Vec3 { x: 0, y: 0, z: 0 },
        normal: Vec3 { x: 0, y: ONE, z: 0 },
        material: lam(Color(ONE, ONE, ONE)),
    };
    let ray = Ray::new(Vec3 { x: 0, y: 5 * ONE, z: 0 }, Vec3 { x: 0, y: -10 * ONE, z: 0 });
    let hit = p.ray_trace(&ray).unwrap();
    // a front-face hit: the ray descends onto the upward normal.
    assert!(!((hit.ray.dir.x as i128 * hit.normal.x as i128
        + hit.ray.dir.y as i128 * hit.normal.y as i128
        + hit.ray.dir.z as i128 * hit.normal.z as i128) > 0));
    assert_eq!(hit.normal_abs(), hit.normal);
    let flipped = hit.flip();
    assert_eq!(flipped.normal.y, -ONE);
    // reflection about the ground sends the ray back up.
    let bounced = hit.reflected();
    assert_eq!(bounced.dir.x, 0);
    assert!(bounced.dir.y > 4 * ONE, "reflection turns the ray upward");
    assert!(bounced.pos.y >= 0 && bounced.pos.y < ONE / 4, "restart just past the surface");
    // ordering helpers.
    let other = HitResult { t: hit.t + 100, ..hit };
    assert_eq!(hit.closer(other).t, hit.t);
    assert_eq!(hit.farther(other).t, hit.t + 100);
    assert_eq!(other.closer(hit).t, hit.t);
    // the restart ray begins past the hit.
    let after = hit.after_t();
    assert!(after.pos.y < ONE / 4);
    // a wobbled hit keeps its origin.
    let mut rng = wyrand_seeded(17);
    let wobbled = hit.wobbled(ONE / 2, &mut rng);
    assert_eq!(wobbled.ray.pos, hit.ray.pos);
    assert_eq!(wobbled.t, hit.t);
    let default_ray = Ray::default();
    assert_eq!(default_ray.pos, Vec3 { x: 0, y: 0, z: 0 });
    assert_eq!(default_ray.dir, Vec3 { x: 0, y: 0, z: 0 });
}
