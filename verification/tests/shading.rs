//! The recursive radiance integrator on concrete scenes.

use in_one_weekend::math::fixed::{HALF, ONE};
use in_one_weekend::math::space::Vec3;
use in_one_weekend::math::ray::Ray;
use in_one_weekend::math::color::Color;
use in_one_weekend::math::hit::HitResult;
use in_one_weekend::material::Material;
use in_one_weekend::material::albedo::Albedo;
use in_one_weekend::material::albedo::solid::Solid;
use in_one_weekend::material::composite::Composite;
use in_one_weekend::material::emissive::{combine_emissive, Emissive};
use in_one_weekend::material::glossy::Glossy;
use in_one_weekend::material::lambertian::Lambertian;
use in_one_weekend::material::mapper::Mapper;
use in_one_weekend::material::metal::Metal;
use in_one_weekend::hittable::Shape;
use in_one_weekend::scene::TestScene;
use in_one_weekend::shape::plane::Plane;
use in_one_weekend::shape::sphere::Sphere;
use in_one_weekend::rng::wyrand::wyrand_seeded;

fn sphere(x: i64, z: i64, radius: i64, material: Material) -> Shape {
    Shape::Sphere(Sphere { center: Vec3 { x, y: 0, z }, radius, material })
}

#[test]
fn zero_bounce_budget_is_exactly_black() {
    let mut scene = TestScene::new();
    scene.objects.push(sphere(0, 0, ONE, Material::Emissive(Emissive::solid(Color::splat(5 * ONE)))));
    scene.objects.push(sphere(3 * ONE, 0, ONE, Material::Metal(Metal::new(0))));
    scene.objects.push(sphere(-3 * ONE, 0, ONE, Material::Glossy(Glossy(Albedo::Solid(Solid(Color(ONE, 0, 0)))))));
    let ray = Ray::new(Vec3 { x: 0, y: 0, z: 10 * ONE }, Vec3 { x: 0, y: 0, z: -20 * ONE });
    let mut rng = wyrand_seeded(1);
    let hit = scene.ray_trace(&ray, &mut rng);
    assert!(hit.is_some());
    let c = HitResult::get_color(hit, scene_ref(&scene), 0, &mut rng);
    assert_eq!(c, Color(0, 0, 0));
    // no hit also resolves to black, whatever the budget.
    let miss_ray = Ray::new(Vec3 { x: 0, y: 9 * ONE, z: 10 * ONE }, Vec3 { x: 0, y: 0, z: -20 * ONE });
    let miss = scene.ray_trace(&miss_ray, &mut rng);
    assert!(miss.is_none());
    let c2 = HitResult::get_color(miss, scene_ref(&scene), 5, &mut rng);
    assert_eq!(c2, Color(0, 0, 0));
}

fn scene_ref(scene: &TestScene) -> &TestScene {
    scene
}

#[test]
fn one_bounce_left_is_deterministic_per_material() {
    // with exactly one bounce in the budget, every recursive gather lands
    // on the bounce-0 black case, so the result is the material's own base
    // term whatever the random draws: black for the transporting
    // materials.
    let materials = [
        Material::Lambertian(Lambertian::solid(Color(ONE, HALF, HALF))),
        Material::Metal(Metal::colored(Color(ONE, ONE, ONE), ONE / 4)),
        Material::Glossy(Glossy(Albedo::Solid(Solid(Color(ONE, ONE, ONE))))),
        Material::Mapper(Mapper),
    ];
    for m in materials {
        let mut scene = TestScene::new();
        scene.objects.push(sphere(0, 0, ONE, m));
        let ray = Ray::new(Vec3 { x: 0, y: 0, z: 10 * ONE }, Vec3 { x: 0, y: 0, z: -20 * ONE });
        for seed in 0..5u64 {
            let mut rng = wyrand_seeded(seed);
            let hit = scene.ray_trace(&ray, &mut rng);
            let c = HitResult::get_color(hit, scene_ref(&scene), 1, &mut rng);
            assert_eq!(c, Color(0, 0, 0));
        }
    }
}

#[test]
fn emissive_alone_returns_albedo_times_intensity_exactly() {
    // one emissive sphere, nothing else to reflect: with one bounce the
    // diffuse term is exactly black, so the result is exactly the
    // emission term.
    let mut scene = TestScene::new();
    scene.objects.push(sphere(0, 0, ONE, Material::Emissive(Emissive::solid(Color::splat(5 * ONE)))));
    let ray = Ray::new(Vec3 { x: 0, y: 0, z: 10 * ONE }, Vec3 { x: 0, y: 0, z: -20 * ONE });
    let mut rng = wyrand_seeded(2);
    let hit = scene.ray_trace(&ray, &mut rng);
    let c = HitResult::get_color(hit, scene_ref(&scene), 1, &mut rng);
    assert_eq!(c, Color::splat(5 * ONE));
}

#[test]
fn emissive_decomposition_reproduces_the_input_color() {
    // Emissive::solid splits a radiance triple into albedo and intensity;
    // recombining them reproduces the triple exactly.
    let input = Color(2 * ONE, ONE, HALF);
    let e = Emissive::solid(input);
    assert_eq!(e.1, 2 * ONE, "intensity is the largest channel");
    let mut scene = TestScene::new();
    scene.objects.push(sphere(0, 0, ONE, Material::Emissive(e)));
    let ray = Ray::new(Vec3 { x: 0, y: 0, z: 10 * ONE }, Vec3 { x: 0, y: 0, z: -20 * ONE });
    let mut rng = wyrand_seeded(2);
    let hit = scene.ray_trace(&ray, &mut rng);
    let c = HitResult::get_color(hit, scene_ref(&scene), 1, &mut rng);
    assert_eq!(c, input);
}

#[test]
fn emissive_terms_are_additive_not_multiplicative() {
    // the combination rule itself: diffuse + albedo * intensity.
    let diffuse = Color(100, 200, 300);
    let albedo = Color(ONE, HALF, 0);
    let c = combine_emissive(diffuse, albedo, 3 * ONE);
    assert_eq!(c, Color(100 + 3 * ONE, 200 + 3 * HALF, 300));
    // zero diffuse leaves the emission alone; zero intensity leaves the
    // diffuse alone: additive, not multiplicative (a product would be
    // black in both cases).
    assert_eq!(combine_emissive(Color(0, 0, 0), albedo, 3 * ONE), Color(3 * ONE, 3 * HALF, 0));
    assert_eq!(combine_emissive(diffuse, albedo, 0), diffuse);
}

#[test]
fn lambertian_sphere_under_emissive_sky_shades_dimmer_than_source() {
    // a gray unit sphere at the origin under an emissive plane: a ray
    // aimed at the sphere's center with budget 2 returns a non-black
    // color strictly less luminous than the source.
    let mut scene = TestScene::new();
    scene.objects.push(sphere(0, 0, ONE, Material::Lambertian(Lambertian::solid(Color::splat(HALF)))));
    scene.objects.push(Shape::Plane(Plane {
        center: Vec3 { x: 0, y: 0, z: 2 * ONE },
        normal: Vec3 { x: 0, y: 0, z: -ONE },
        material: Material::Emissive(Emissive::solid(Color::splat(5 * ONE))),
    }));
    let ray = Ray::new(Vec3 { x: 0, y: 0, z: (3 * ONE) / 2 }, Vec3 { x: 0, y: 0, z: -8 * ONE });
    let source_luminance = Color::splat(5 * ONE).luminance();
    let mut found_lit = false;
    for seed in 0..20u64 {
        let mut rng = wyrand_seeded(seed);
        let hit = scene.ray_trace(&ray, &mut rng);
        assert!(hit.is_some(), "the ray is aimed straight at the sphere");
        let c = HitResult::get_color(hit, scene_ref(&scene), 2, &mut rng);
        let lum = c.luminance();
        assert!(lum < source_luminance, "light is absorbed, never amplified: {lum}");
        if c != Color(0, 0, 0) {
            found_lit = true;
        }
    }
    assert!(found_lit, "some bounce must reach the emissive sky");
}

#[test]
fn composite_materials_combine_child_colors() {
    // two emissive children seen with budget 1 produce exactly their
    // emission terms, and the composite combines them per its operation.
    let red = || Box::new(Material::Emissive(Emissive::solid(Color(2 * ONE, 0, 0))));
    let blue = || Box::new(Material::Emissive(Emissive::solid(Color(0, 0, 4 * ONE))));
    let cases = [
        (Composite::Add(red(), blue()), Color(2 * ONE, 0, 4 * ONE)),
        (Composite::Sub(red(), blue()), Color(2 * ONE, 0, -4 * ONE)),
        (Composite::Mul(red(), blue()), Color(0, 0, 0)),
        (Composite::Lerp(red(), blue(), HALF), Color(ONE, 0, 2 * ONE)),
    ];
    for (comp, expected) in cases {
        let mut scene = TestScene::new();
        scene.objects.push(sphere(0, 0, ONE, Material::Composite(comp)));
        let ray = Ray::new(Vec3 { x: 0, y: 0, z: 10 * ONE }, Vec3 { x: 0, y: 0, z: -20 * ONE });
        let mut rng = wyrand_seeded(4);
        let hit = scene.ray_trace(&ray, &mut rng);
        let c = HitResult::get_color(hit, scene_ref(&scene), 1, &mut rng);
        assert_eq!(c, expected);
    }
}

#[test]
fn metal_mapper_and_glossy_terminate_and_absorb() {
    // smoke coverage of the remaining materials: bounded budgets always
    // terminate, and a lone reflector with nothing to see stays black.
    let materials = [
        Material::Metal(Metal::new(0)),
        Material::Metal(Metal::colored(Color(ONE, HALF, HALF), ONE / 4)),
        Material::Glossy(Glossy(Albedo::Solid(Solid(Color(ONE, ONE, ONE))))),
        Material::Mapper(Mapper),
    ];
    for m in materials {
        let mut scene = TestScene::new();
        scene.objects.push(sphere(0, 0, ONE, m));
        let ray = Ray::new(Vec3 { x: 0, y: 0, z: 10 * ONE }, Vec3 { x: 0, y: 0, z: -20 * ONE });
        let mut rng = wyrand_seeded(6);
        let hit = scene.ray_trace(&ray, &mut rng);
        assert!(hit.is_some());
        let c = HitResult::get_color(hit, scene_ref(&scene), 4, &mut rng);
        assert_eq!(c, Color(0, 0, 0), "nothing luminous anywhere: black");
    }
}
