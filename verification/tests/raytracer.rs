use simple_raytracing::fixed::ONE;
use simple_raytracing::geometry::ray_spheres_intersection;
use simple_raytracing::render::{render, Rgb};
use simple_raytracing::scene::{EnvMap, Light, Material, Scene, Sphere};
use simple_raytracing::shading::cast_ray;
use simple_raytracing::vec3::Vec3;

fn plain_material() -> Material {
    Material::new(
        Vec3::new(ONE, ONE / 2, ONE / 4),
        Vec3::new(ONE / 2, ONE / 4, 0),
        10,
    )
}

#[test]
fn intersection_straight_ahead_is_at_distance_four() {
    let sphere = Sphere::new(ONE, Vec3::new(0, 0, -5 * ONE), 0);
    let origin = Vec3::new(0, 0, 0);
    let dir = Vec3::new(0, 0, -ONE);
    assert_eq!(sphere.ray_intersect(&origin, &dir), Some(4 * ONE));
}

#[test]
fn intersection_sideways_misses() {
    let sphere = Sphere::new(ONE, Vec3::new(0, 0, -5 * ONE), 0);
    let origin = Vec3::new(0, 0, 0);
    let dir = Vec3::new(ONE, 0, 0);
    assert_eq!(sphere.ray_intersect(&origin, &dir), None);
}

#[test]
fn intersection_from_inside_returns_far_root() {
    let sphere = Sphere::new(5 * ONE, Vec3::new(0, 0, 0), 0);
    let origin = Vec3::new(0, 0, 0);
    let dir = Vec3::new(0, 0, -ONE);
    assert_eq!(sphere.ray_intersect(&origin, &dir), Some(5 * ONE));
}

#[test]
fn nearest_hit_first_sphere_wins_exact_ties() {
    let spheres = vec![
        Sphere::new(ONE, Vec3::new(0, 0, -5 * ONE), 0),
        Sphere::new(ONE, Vec3::new(0, 0, -5 * ONE), 1),
    ];
    let origin = Vec3::new(0, 0, 0);
    let dir = Vec3::new(0, 0, -ONE);
    let hit = ray_spheres_intersection(&spheres, &origin, &dir).unwrap();
    assert_eq!(hit.material, 0);
    assert_eq!(hit.distance, 4 * ONE);
}

#[test]
fn nearest_hit_prefers_the_closer_sphere() {
    let spheres = vec![
        Sphere::new(ONE, Vec3::new(0, 0, -5 * ONE), 0),
        Sphere::new(ONE, Vec3::new(0, 0, -3 * ONE), 1),
    ];
    let origin = Vec3::new(0, 0, 0);
    let dir = Vec3::new(0, 0, -ONE);
    let hit = ray_spheres_intersection(&spheres, &origin, &dir).unwrap();
    assert_eq!(hit.material, 1);
    assert_eq!(hit.distance, 2 * ONE);
}

#[test]
fn nearest_hit_reports_point_and_normal() {
    let spheres = vec![Sphere::new(ONE, Vec3::new(0, 0, -5 * ONE), 0)];
    let origin = Vec3::new(0, 0, 0);
    let dir = Vec3::new(0, 0, -ONE);
    let hit = ray_spheres_intersection(&spheres, &origin, &dir).unwrap();
    assert_eq!(hit.point, Vec3::new(0, 0, -4 * ONE));
    assert_eq!(hit.normal, Vec3::new(0, 0, ONE));
}

#[test]
fn occluded_light_contributes_exactly_nothing() {
    let target = Sphere::new(ONE, Vec3::new(0, 0, -5 * ONE), 0);
    // Sits on the segment from the hit point (0, 0, -4) to the light,
    // away from the primary ray along the z axis.
    let occluder = Sphere::new(2 * ONE, Vec3::new(5 * ONE, 0, ONE), 0);
    let light = Light::new(Vec3::new(10 * ONE, 0, 6 * ONE), 2 * ONE);
    let materials = vec![plain_material()];
    let background = Vec3::new(0, 0, 0);

    let shadowed = Scene {
        spheres: vec![target, occluder],
        lights: vec![light],
        materials: materials.clone(),
        background,
        envmap: None,
    };
    let unlit = Scene {
        spheres: vec![target, occluder],
        lights: vec![],
        materials: materials.clone(),
        background,
        envmap: None,
    };
    let unoccluded = Scene {
        spheres: vec![target],
        lights: vec![light],
        materials,
        background,
        envmap: None,
    };

    let origin = Vec3::new(0, 0, 0);
    let dir = Vec3::new(0, 0, -ONE);
    let with_shadow = cast_ray(&shadowed, &origin, &dir, 2);
    let without_light = cast_ray(&unlit, &origin, &dir, 2);
    let without_occluder = cast_ray(&unoccluded, &origin, &dir, 2);
    assert_eq!(with_shadow, without_light);
    assert_ne!(with_shadow, without_occluder);
}

#[test]
fn empty_scene_renders_flat_background_everywhere() {
    let scene = Scene {
        spheres: vec![],
        lights: vec![],
        materials: vec![],
        background: Vec3::new(ONE / 2, ONE / 4, ONE / 8),
        envmap: None,
    };
    let pixels = render(&scene, 4, 3, ONE, 2);
    assert_eq!(pixels.len(), 12);
    for p in pixels {
        assert_eq!(p, Rgb { r: 127, g: 63, b: 31 });
    }
}

#[test]
fn mirror_sphere_converges_to_the_background() {
    let mirror = Material::new(Vec3::new(ONE, ONE, ONE), Vec3::new(0, 0, ONE), 1425);
    let background = Vec3::new(30000, 20000, 10000);
    let scene = Scene {
        spheres: vec![Sphere::new(ONE, Vec3::new(0, 0, -5 * ONE), 0)],
        lights: vec![Light::new(Vec3::new(-20 * ONE, 20 * ONE, 20 * ONE), 3 * ONE / 2)],
        materials: vec![mirror],
        background,
        envmap: None,
    };
    let origin = Vec3::new(0, 0, 0);
    let dir = Vec3::new(0, 0, -ONE);
    assert_eq!(cast_ray(&scene, &origin, &dir, 4), background);
    assert_eq!(cast_ray(&scene, &origin, &dir, 0), background);
}

#[test]
fn phong_terms_compose_to_the_exact_color() {
    // Light at the camera, sphere straight ahead: the hit is at
    // (0, 0, -4), the normal and the light direction are the +z unit,
    // and every factor is exact in fixed point.  With intensity 2,
    // diffuse = 2 and specular = 2, so the color is
    // color * 2 * 0.5 + white * 2 * 0.25 + 0.
    let scene = Scene {
        spheres: vec![Sphere::new(ONE, Vec3::new(0, 0, -5 * ONE), 0)],
        lights: vec![Light::new(Vec3::new(0, 0, 0), 2 * ONE)],
        materials: vec![Material::new(
            Vec3::new(ONE, ONE / 2, 0),
            Vec3::new(ONE / 2, ONE / 4, 0),
            10,
        )],
        background: Vec3::new(0, 0, 0),
        envmap: None,
    };
    let origin = Vec3::new(0, 0, 0);
    let dir = Vec3::new(0, 0, -ONE);
    let expected = Vec3::new(ONE + ONE / 2, ONE, ONE / 2);
    assert_eq!(cast_ray(&scene, &origin, &dir, 0), expected);
    assert_eq!(cast_ray(&scene, &origin, &dir, 4), expected);
}

#[test]
fn render_places_the_shaded_sphere_at_the_center_pixel() {
    // A 3 x 3 grid with tan(fov/2) = 1: the center pixel's ray is exactly
    // (0, 0, -1), which hits the sphere of the exact Phong scene; the
    // corner rays miss and take the background.  The center color
    // (1.5, 1.0, 0.5) saturates to (255, 255, 127) in bytes.
    let scene = Scene {
        spheres: vec![Sphere::new(ONE, Vec3::new(0, 0, -5 * ONE), 0)],
        lights: vec![Light::new(Vec3::new(0, 0, 0), 2 * ONE)],
        materials: vec![Material::new(
            Vec3::new(ONE, ONE / 2, 0),
            Vec3::new(ONE / 2, ONE / 4, 0),
            10,
        )],
        background: Vec3::new(0, 0, 0),
        envmap: None,
    };
    let pixels = render(&scene, 3, 3, ONE, 1);
    assert_eq!(pixels.len(), 9);
    assert_eq!(pixels[4], Rgb { r: 255, g: 255, b: 127 });
    assert_eq!(pixels[0], Rgb { r: 0, g: 0, b: 0 });
    assert_eq!(pixels[8], Rgb { r: 0, g: 0, b: 0 });
}

fn indexed_envmap(width: usize, height: usize) -> EnvMap {
    let mut pixels = Vec::new();
    for i in 0..(width * height) {
        pixels.push(Vec3::new(i as i64, 0, 0));
    }
    EnvMap::new(width, height, pixels)
}

#[test]
fn envmap_uv_matches_the_canonical_directions() {
    // For a 512 x 256 map: +x lands at (256, 128), +y at (256, 0),
    // -z at (128, 128); each pixel holds its own row-major index.
    let em = indexed_envmap(512, 256);
    assert_eq!(em.sample(&Vec3::new(ONE, 0, 0)).x, 128 * 512 + 256);
    assert_eq!(em.sample(&Vec3::new(0, ONE, 0)).x, 256);
    assert_eq!(em.sample(&Vec3::new(0, 0, -ONE)).x, 128 * 512 + 128);
}

#[test]
fn envmap_is_the_background_of_a_missing_ray() {
    let scene = Scene {
        spheres: vec![],
        lights: vec![],
        materials: vec![],
        background: Vec3::new(0, 0, 0),
        envmap: Some(indexed_envmap(512, 256)),
    };
    let origin = Vec3::new(0, 0, 0);
    let color = cast_ray(&scene, &origin, &Vec3::new(0, 0, -ONE), 2);
    assert_eq!(color, Vec3::new(128 * 512 + 128, 0, 0));
}

#[test]
fn one_pixel_envmap_absorbs_every_direction() {
    let em = EnvMap::new(1, 1, vec![Vec3::new(42, 43, 44)]);
    assert_eq!(em.sample(&Vec3::new(ONE, 0, 0)), Vec3::new(42, 43, 44));
    assert_eq!(em.sample(&Vec3::new(-ONE, ONE, ONE)), Vec3::new(42, 43, 44));
}
