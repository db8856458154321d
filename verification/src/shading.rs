//! The recursive shading engine.  `sp_cast` states, exactly, the color a
//! ray yields: the background on a miss, and otherwise the Phong diffuse
//! and specular sums over the non-occluded lights plus the mirror
//! reflection, each weighted by the material's albedo.  Reflection depth is
//! bounded by an explicit `depth` parameter: at depth 0 the reflection ray
//! is not traced and falls back to the background seen along it.

use vstd::prelude::*;

verus! {

use crate::fixed::{
    ONE, EPSILON, sp_add, sp_mul, sp_max0, sp_pow,
    fx_add, fx_mul, fx_max0, fx_pow,
};
use crate::geometry::{sp_nearest, sp_hit, ray_spheres_intersection};
use crate::scene::{Scene, SceneS, SphereS, sp_scene_wf, sp_env_sample};
use crate::vec3::{
    Vec3, V3, sp_add_v, sp_sub_v, sp_scale_v, sp_dot, sp_norm, sp_normalize_v,
};

/// Mirror reflection of `i` about the unit normal `n`: `i - 2 n (i . n)`.
pub open spec fn sp_reflect(i: V3, n: V3) -> V3 {
    sp_sub_v(i, sp_scale_v(n, sp_add(sp_dot(i, n), sp_dot(i, n))))
}

pub fn reflect(i: &Vec3, n: &Vec3) -> (r: Vec3)
    ensures
        r@ == sp_reflect(i@, n@),
{
    let d = i.dot(n);
    i.sub(&n.scale(fx_add(d, d)))
}

/// A secondary ray's origin: the hit point pushed a small epsilon along
/// the normal, on the side the new ray leaves (`toward` is the new
/// direction's dot product with the normal).
pub open spec fn sp_offset_origin(point: V3, normal: V3, toward: int) -> V3 {
    if toward < 0 {
        sp_sub_v(point, sp_scale_v(normal, EPSILON as int))
    } else {
        sp_add_v(point, sp_scale_v(normal, EPSILON as int))
    }
}

fn offset_origin(point: &Vec3, normal: &Vec3, toward: i64) -> (r: Vec3)
    ensures
        r@ == sp_offset_origin(point@, normal@, toward as int),
{
    if toward < 0 {
        point.sub(&normal.scale(EPSILON))
    } else {
        point.add(&normal.scale(EPSILON))
    }
}

/// What a ray that hits nothing yields: the environment map sampled along
/// the direction when the scene has one, else the flat background color.
pub open spec fn sp_background(sc: SceneS, dir: V3) -> V3 {
    match sc.envmap {
        Option::Some(em) => sp_env_sample(em, dir),
        Option::None => sc.background,
    }
}

/// Whether a point light is cut off from the shaded point: the shadow ray
/// from the offset origin toward the light hits some sphere strictly
/// nearer than the light itself.
pub open spec fn sp_occluded(sc: SceneS, shadow_orig: V3, light_dir: V3, light_distance: int) -> bool {
    match sp_hit(sc.spheres, shadow_orig, light_dir) {
        Option::Some(h) => h.distance < light_distance,
        Option::None => false,
    }
}

/// Whether light `i` of the scene is occluded as seen from the hit point
/// with the given normal: its shadow ray, spawned from the epsilon-offset
/// origin, meets a sphere strictly nearer than the light.
pub open spec fn sp_light_occluded(sc: SceneS, point: V3, normal: V3, i: int) -> bool {
    let light = sc.lights[i];
    let lvec = sp_sub_v(light.coordinates, point);
    let light_dir = sp_normalize_v(lvec);
    let light_distance = sp_norm(lvec);
    let shadow_orig = sp_offset_origin(point, normal, sp_dot(light_dir, normal));
    sp_occluded(sc, shadow_orig, light_dir, light_distance)
}

/// The accumulated `(diffuse, specular)` intensities of the first `n`
/// lights at a hit point.  An occluded light contributes nothing at all;
/// an unoccluded one adds `intensity * max(0, light_dir . normal)` to the
/// diffuse sum and `intensity * max(0, reflect(light_dir, normal) . dir) ^
/// exponent` to the specular sum, where `dir` is the incoming ray
/// direction of the shading call.
pub open spec fn sp_light_acc(
    sc: SceneS,
    point: V3,
    normal: V3,
    dir: V3,
    exponent: nat,
    n: int,
) -> (int, int)
    decreases n,
{
    if n <= 0 {
        (0, 0)
    } else {
        let acc = sp_light_acc(sc, point, normal, dir, exponent, n - 1);
        if sp_light_occluded(sc, point, normal, n - 1) {
            acc
        } else {
            let light = sc.lights[n - 1];
            let lvec = sp_sub_v(light.coordinates, point);
            let light_dir = sp_normalize_v(lvec);
            (
                sp_add(acc.0, sp_mul(light.intensity, sp_max0(sp_dot(light_dir, normal)))),
                sp_add(
                    acc.1,
                    sp_mul(
                        sp_pow(sp_max0(sp_dot(sp_reflect(light_dir, normal), dir)), exponent),
                        light.intensity,
                    ),
                ),
            )
        }
    }
}

/// The color a ray yields, shading the nearest hit recursively up to
/// `depth` reflection bounces.  On a hit with material `m` the result is
/// `m.color * diffuse * m.albedo.x + white * specular * m.albedo.y +
/// reflect_color * m.albedo.z`, component-wise over the fixed-point
/// operations.
pub open spec fn sp_cast(sc: SceneS, origin: V3, dir: V3, depth: nat) -> V3
    decreases depth,
{
    match sp_hit(sc.spheres, origin, dir) {
        Option::None => sp_background(sc, dir),
        Option::Some(h) => {
            let m = sc.materials[h.material];
            let reflect_dir = sp_reflect(dir, h.normal);
            let reflect_orig = sp_offset_origin(h.point, h.normal, sp_dot(reflect_dir, h.normal));
            let reflect_color = if depth == 0 {
                sp_background(sc, reflect_dir)
            } else {
                sp_cast(sc, reflect_orig, reflect_dir, (depth - 1) as nat)
            };
            let acc = sp_light_acc(sc, h.point, h.normal, dir, m.specular_exponent, sc.lights.len() as int);
            let white = V3 { x: ONE as int, y: ONE as int, z: ONE as int };
            sp_add_v(
                sp_add_v(
                    sp_scale_v(sp_scale_v(m.color, acc.0), m.albedo.x),
                    sp_scale_v(sp_scale_v(white, acc.1), m.albedo.y),
                ),
                sp_scale_v(reflect_color, m.albedo.z),
            )
        },
    }
}

/// A nearest-hit winner's index lies among the scanned spheres.
pub proof fn lemma_nearest_index_in_range(spheres: Seq<SphereS>, origin: V3, dir: V3, n: int)
    ensures
        match sp_nearest(spheres, origin, dir, n) {
            Option::Some(b) => 0 <= b.0 < n,
            Option::None => true,
        },
    decreases n,
{
    if n > 0 {
        lemma_nearest_index_in_range(spheres, origin, dir, n - 1);
    }
}

pub fn cast_ray(scene: &Scene, origin: &Vec3, dir: &Vec3, depth: u32) -> (c: Vec3)
    requires
        sp_scene_wf(scene@),
    ensures
        c@ == sp_cast(scene@, origin@, dir@, depth as nat),
    decreases depth,
{
    let hit_result = ray_spheres_intersection(&scene.spheres, origin, dir);
    match hit_result {
        Option::None => {
            match &scene.envmap {
                Option::Some(em) => em.sample(dir),
                Option::None => scene.background,
            }
        },
        Option::Some(hit) => {
            proof {
                lemma_nearest_index_in_range(scene@.spheres, origin@, dir@, scene@.spheres.len() as int);
                assert(scene@.materials[hit.material as int] == scene.materials@[hit.material as int]@);
            }
            let m = scene.materials[hit.material];
            let reflect_dir = reflect(dir, &hit.normal);
            let rdn = reflect_dir.dot(&hit.normal);
            let reflect_orig = offset_origin(&hit.point, &hit.normal, rdn);
            let reflect_color = if depth == 0 {
                match &scene.envmap {
                    Option::Some(em) => em.sample(&reflect_dir),
                    Option::None => scene.background,
                }
            } else {
                cast_ray(scene, &reflect_orig, &reflect_dir, depth - 1)
            };
            let nl = scene.lights.len();
            let mut diffuse: i64 = 0;
            let mut specular: i64 = 0;
            let mut j: usize = 0;
            while j < nl
                invariant
                    sp_scene_wf(scene@),
                    nl == scene.lights@.len(),
                    j <= nl,
                    diffuse as int == sp_light_acc(
                        scene@, hit.point@, hit.normal@, dir@, m@.specular_exponent, j as int,
                    ).0,
                    specular as int == sp_light_acc(
                        scene@, hit.point@, hit.normal@, dir@, m@.specular_exponent, j as int,
                    ).1,
                decreases nl - j,
            {
                proof {
                    assert(scene@.lights[j as int] == scene.lights@[j as int]@);
                }
                let light = scene.lights[j];
                let lvec = light.coordinates.sub(&hit.point);
                let light_dir = lvec.normalize();
                let light_distance = lvec.norm();
                let sdn = light_dir.dot(&hit.normal);
                let shadow_orig = offset_origin(&hit.point, &hit.normal, sdn);
                let occluded = match ray_spheres_intersection(&scene.spheres, &shadow_orig, &light_dir) {
                    Option::Some(sh) => sh.distance < light_distance,
                    Option::None => false,
                };
                if !occluded {
                    diffuse = fx_add(diffuse, fx_mul(light.intensity, fx_max0(sdn)));
                    specular = fx_add(
                        specular,
                        fx_mul(
                            fx_pow(fx_max0(reflect(&light_dir, &hit.normal).dot(dir)), m.specular_exponent),
                            light.intensity,
                        ),
                    );
                }
                j = j + 1;
            }
            let white = Vec3::new(ONE, ONE, ONE);
            m.color.scale(diffuse).scale(m.albedo.x)
                .add(&white.scale(specular).scale(m.albedo.y))
                .add(&reflect_color.scale(m.albedo.z))
        },
    }
}

} // verus!
