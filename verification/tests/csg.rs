//! Boolean union and subtraction on concrete sphere arrangements.

use in_one_weekend::math::fixed::{EPS, ONE};
use in_one_weekend::math::space::Vec3;
use in_one_weekend::math::ray::Ray;
use in_one_weekend::math::color::Color;
use in_one_weekend::material::Material;
use in_one_weekend::material::lambertian::Lambertian;
use in_one_weekend::hittable::Shape;
use in_one_weekend::shape::sphere::Sphere;
use in_one_weekend::rng::wyrand::wyrand_seeded;

fn lam(c: Color) -> Material {
    Material::Lambertian(Lambertian::solid(c))
}

fn sphere_at(x: i64, radius: i64, c: Color) -> Shape {
    Shape::Sphere(Sphere { center: Vec3 { x, y: 0, z: 0 }, radius, material: lam(c) })
}

#[test]
fn union_of_disjoint_spheres_returns_closer_hit() {
    let a = sphere_at(-3 * ONE, ONE, Color(ONE, 0, 0));
    let b = sphere_at(3 * ONE, ONE, Color(0, ONE, 0));
    let union = Shape::union(a, b);
    let ray = Ray::new(Vec3 { x: -10 * ONE, y: 0, z: 0 }, Vec3 { x: 20 * ONE, y: 0, z: 0 });
    let mut rng = wyrand_seeded(7);
    let hit = union.ray_trace(&ray, &mut rng).expect("the ray crosses both spheres");
    // the first sphere's surface at x = -4 is 6 of 20 units in: t = 0.3.
    assert_eq!(hit.t, 19660);
    // the hit carries the closer (first) sphere's material.
    let albedo = hit.material.albedo(hit);
    assert_eq!(albedo, Color(ONE, 0, 0));
    // and its position is not inside the other sphere.
    let b2 = sphere_at(3 * ONE, ONE, Color(0, ONE, 0));
    assert!(!b2.is_inside(hit.pos()));
}

#[test]
fn union_is_symmetric_in_hit_distance() {
    let rays = [
        Ray::new(Vec3 { x: -10 * ONE, y: 0, z: 0 }, Vec3 { x: 20 * ONE, y: 0, z: 0 }),
        Ray::new(Vec3 { x: 10 * ONE, y: 0, z: 0 }, Vec3 { x: -20 * ONE, y: 0, z: 0 }),
        Ray::new(Vec3 { x: -10 * ONE, y: ONE / 2, z: 0 }, Vec3 { x: 20 * ONE, y: 0, z: 0 }),
        Ray::new(Vec3 { x: 0, y: -8 * ONE, z: 0 }, Vec3 { x: 0, y: 20 * ONE, z: 0 }),
    ];
    for (i, ray) in rays.iter().enumerate() {
        let ab = Shape::union(
            sphere_at(-3 * ONE, ONE, Color(ONE, 0, 0)),
            sphere_at(3 * ONE, ONE, Color(0, ONE, 0)),
        );
        let ba = Shape::union(
            sphere_at(3 * ONE, ONE, Color(0, ONE, 0)),
            sphere_at(-3 * ONE, ONE, Color(ONE, 0, 0)),
        );
        let mut rng = wyrand_seeded(11);
        let h_ab = ab.ray_trace(ray, &mut rng);
        let h_ba = ba.ray_trace(ray, &mut rng);
        match (h_ab, h_ba) {
            (Some(x), Some(y)) => assert_eq!(x.t, y.t, "ray {i}"),
            (None, None) => {}
            _ => panic!("one order hit and the other missed for ray {i}"),
        }
    }
}

#[test]
fn subtract_cavity_yields_two_crossings_with_flipped_normal() {
    // a sphere of radius 2 with a radius-1 cavity cut out of its middle.
    let carved = Shape::subtract(
        sphere_at(0, 2 * ONE, Color(ONE, 0, 0)),
        sphere_at(0, ONE, Color(0, ONE, 0)),
    );
    let ray = Ray::new(Vec3 { x: -10 * ONE, y: 0, z: 0 }, Vec3 { x: 20 * ONE, y: 0, z: 0 });
    let mut rng = wyrand_seeded(3);
    // first crossing: entering the outer sphere at x = -2 (t = 0.4).
    let first = carved.ray_trace(&ray, &mut rng).expect("the carved solid is in the way");
    let t1 = first.t as f64 / ONE as f64;
    assert!((t1 - 0.4).abs() < 1e-3, "first crossing t = {t1}");
    assert!(first.normal.x < 0, "entry normal faces the ray");
    // restart just past the first crossing: the cavity wall is next.
    let ray2 = ray.from(first.t + EPS);
    let second = carved.ray_trace(&ray2, &mut rng).expect("the cavity wall is next");
    let p = second.pos();
    let px = p.x as f64 / ONE as f64;
    assert!((px - (-1.0)).abs() < 1e-2, "second crossing at the cavity boundary: x = {px}");
    // the cavity's normal is flipped to point into the cavity.
    assert!(second.normal.x > 0, "cavity normal must point into the cavity");
    // the revealed wall is the cut's surface.
    assert_eq!(second.material.albedo(second), Color(0, ONE, 0));
}

#[test]
fn subtract_with_nonoverlapping_cut_changes_nothing() {
    let rays = [
        Ray::new(Vec3 { x: -10 * ONE, y: 0, z: 0 }, Vec3 { x: 20 * ONE, y: 0, z: 0 }),
        Ray::new(Vec3 { x: -10 * ONE, y: ONE / 2, z: 0 }, Vec3 { x: 20 * ONE, y: 0, z: 0 }),
        Ray::new(Vec3 { x: -3 * ONE, y: -8 * ONE, z: 0 }, Vec3 { x: 0, y: 20 * ONE, z: 0 }),
        Ray::new(Vec3 { x: 0, y: 0, z: -9 * ONE }, Vec3 { x: 0, y: 0, z: 5 * ONE }),
        Ray::new(Vec3 { x: 9 * ONE, y: 0, z: 0 }, Vec3 { x: -20 * ONE, y: 0, z: 0 }),
    ];
    for (i, ray) in rays.iter().enumerate() {
        let plain = sphere_at(-3 * ONE, ONE, Color(ONE, 0, 0));
        let carved = Shape::subtract(
            sphere_at(-3 * ONE, ONE, Color(ONE, 0, 0)),
            sphere_at(3 * ONE, ONE, Color(0, ONE, 0)),
        );
        let mut rng = wyrand_seeded(5);
        let h_plain = plain.ray_trace(ray, &mut rng);
        let h_carved = carved.ray_trace(ray, &mut rng);
        match (h_plain, h_carved) {
            (Some(x), Some(y)) => {
                assert_eq!(x.t, y.t, "ray {i}");
                assert_eq!(x.normal, y.normal, "ray {i}");
            }
            (None, None) => {}
            _ => panic!("subtraction changed hit/miss for ray {i}"),
        }
    }
}

#[test]
fn subtract_engulfing_cut_removes_everything() {
    // the cut fully contains the solid: no surface remains.
    let gone = Shape::subtract(
        sphere_at(0, ONE, Color(ONE, 0, 0)),
        sphere_at(0, 3 * ONE, Color(0, ONE, 0)),
    );
    let mut rng = wyrand_seeded(13);
    let rays = [
        Ray::new(Vec3 { x: -10 * ONE, y: 0, z: 0 }, Vec3 { x: 20 * ONE, y: 0, z: 0 }),
        Ray::new(Vec3 { x: 0, y: 8 * ONE, z: 0 }, Vec3 { x: 0, y: -20 * ONE, z: 0 }),
    ];
    for ray in rays.iter() {
        assert!(gone.ray_trace(ray, &mut rng).is_none());
    }
}

#[test]
fn csg_contains_follows_boolean_algebra() {
    let union = Shape::union(
        sphere_at(-ONE, 3 * ONE / 2, Color(ONE, 0, 0)),
        sphere_at(ONE, 3 * ONE / 2, Color(0, ONE, 0)),
    );
    assert!(union.is_inside(Vec3 { x: -2 * ONE, y: 0, z: 0 }));
    assert!(union.is_inside(Vec3 { x: 2 * ONE, y: 0, z: 0 }));
    assert!(union.is_inside(Vec3 { x: 0, y: 0, z: 0 }));
    assert!(!union.is_inside(Vec3 { x: 3 * ONE, y: 0, z: 0 }));
    let carved = Shape::subtract(
        sphere_at(0, 2 * ONE, Color(ONE, 0, 0)),
        sphere_at(0, ONE, Color(0, ONE, 0)),
    );
    assert!(carved.is_inside(Vec3 { x: 3 * ONE / 2, y: 0, z: 0 }));
    assert!(!carved.is_inside(Vec3 { x: ONE / 2, y: 0, z: 0 }));
    assert!(!carved.is_inside(Vec3 { x: 3 * ONE, y: 0, z: 0 }));
}
