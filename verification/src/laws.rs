//! Laws of the tracing pipeline, each proved once and for all inputs:
//! intersection distances are never negative, a fully occluded light
//! contributes nothing, an empty scene renders as pure background, and a
//! scene of pure mirrors over a flat background converges to that
//! background at every bounded depth.

use vstd::prelude::*;

verus! {

use vstd::arithmetic::div_mod::{
    lemma_fundamental_div_mod,
    lemma_fundamental_div_mod_converse,
    lemma_mod_bound,
};
use crate::fixed::{ONE, lemma_mul_zero, lemma_mul_unit};
use crate::geometry::{sp_intersect, sp_nearest, sp_hit};
use crate::render::{sp_render_pixel, sp_to_rgb, sp_channel, sp_from_channel};
use crate::scene::{SceneS, SphereS, sp_scene_wf};
use crate::shading::{
    sp_cast, sp_light_acc, sp_light_occluded, lemma_nearest_index_in_range,
};
use crate::vec3::{V3, sp_v3_in_range};

/// An intersection never reports a point behind the ray origin: a hit
/// distance is nonnegative.
pub proof fn lemma_intersect_nonneg(s: SphereS, origin: V3, dir: V3)
    ensures
        match sp_intersect(s, origin, dir) {
            Option::Some(t) => t >= 0,
            Option::None => true,
        },
{
}

/// Neither does the nearest-hit search: the winning distance over any
/// prefix of the sphere list is nonnegative.
pub proof fn lemma_nearest_nonneg(spheres: Seq<SphereS>, origin: V3, dir: V3, n: int)
    ensures
        match sp_nearest(spheres, origin, dir, n) {
            Option::Some(b) => b.1 >= 0,
            Option::None => true,
        },
    decreases n,
{
    if n > 0 {
        lemma_nearest_nonneg(spheres, origin, dir, n - 1);
        lemma_intersect_nonneg(spheres[n - 1], origin, dir);
    }
}

/// So a reported surface hit always lies at a nonnegative distance along
/// the ray, whatever the scene and wherever the ray starts.
pub proof fn lemma_hit_distance_nonneg(spheres: Seq<SphereS>, origin: V3, dir: V3)
    ensures
        match sp_hit(spheres, origin, dir) {
            Option::Some(h) => h.distance >= 0,
            Option::None => true,
        },
{
    lemma_nearest_nonneg(spheres, origin, dir, spheres.len() as int);
}

/// A fully occluded light contributes exactly zero diffuse and zero
/// specular energy: the light sums over the first `n` lights equal the
/// sums with light `n - 1` left out entirely.
pub proof fn lemma_occluded_light_adds_nothing(
    sc: SceneS,
    point: V3,
    normal: V3,
    dir: V3,
    exponent: nat,
    n: int,
)
    requires
        0 < n,
        sp_light_occluded(sc, point, normal, n - 1),
    ensures
        sp_light_acc(sc, point, normal, dir, exponent, n) == sp_light_acc(
            sc,
            point,
            normal,
            dir,
            exponent,
            n - 1,
        ),
{
}

/// Bringing a byte onto the fixed-point unit range and scaling it back
/// onto bytes returns it exactly: `sp_from_channel` rounds up, which
/// places `255 * sp_from_channel(p)` inside `[p * ONE, (p + 1) * ONE)`,
/// so the truncating `sp_channel` lands on `p` again.  A color read from
/// an image and written back is therefore unchanged.
pub proof fn lemma_channel_round_trip(p: int)
    requires
        0 <= p <= 255,
    ensures
        sp_channel(sp_from_channel(p)) == p,
{
    let one = ONE as int;
    let x = p * one + 254;
    lemma_fundamental_div_mod(x, 255);
    lemma_mod_bound(x, 255);
    let v = x / 255;
    assert(sp_from_channel(p) == v);
    assert(p * one <= 255 * v < (p + 1) * one);
    lemma_fundamental_div_mod_converse(v * 255, one, p, v * 255 - p * one);
}

/// A scene with no spheres and no environment map shades every ray, at
/// every depth, to exactly the flat background color.
pub proof fn lemma_empty_scene_is_background(sc: SceneS, origin: V3, dir: V3, depth: nat)
    requires
        sc.spheres.len() == 0,
        sc.lights.len() == 0,
        sc.envmap is None,
    ensures
        sp_cast(sc, origin, dir, depth) == sc.background,
{
    assert(sp_nearest(sc.spheres, origin, dir, 0) is None);
}

/// And so every pixel of a render of such a scene holds the background
/// color's byte conversion, whatever the camera and depth settings.
pub proof fn lemma_empty_scene_pixel(
    sc: SceneS,
    width: int,
    height: int,
    tan_half_fov: int,
    depth: nat,
    px: int,
    py: int,
)
    requires
        sc.spheres.len() == 0,
        sc.lights.len() == 0,
        sc.envmap is None,
    ensures
        sp_render_pixel(sc, width, height, tan_half_fov, depth, px, py) == sp_to_rgb(sc.background),
{
    lemma_empty_scene_is_background(
        sc,
        V3 { x: 0, y: 0, z: 0 },
        crate::render::sp_pixel_dir(width, height, tan_half_fov, px, py),
        depth,
    );
}

/// In a valid scene whose materials are all pure mirrors (albedo
/// `(0, 0, ONE)`) under a flat background, bounded-depth shading returns
/// exactly the background color for every ray and every depth: the
/// recursion converges instead of diverging.
pub proof fn lemma_mirror_scene_converges_to_background(
    sc: SceneS,
    origin: V3,
    dir: V3,
    depth: nat,
)
    requires
        sp_scene_wf(sc),
        sc.envmap is None,
        sp_v3_in_range(sc.background),
        forall|i: int|
            0 <= i < sc.materials.len() ==> (#[trigger] sc.materials[i]).albedo == (V3 {
                x: 0,
                y: 0,
                z: ONE as int,
            }),
    ensures
        sp_cast(sc, origin, dir, depth) == sc.background,
    decreases depth,
{
    match sp_hit(sc.spheres, origin, dir) {
        Option::None => {
        },
        Option::Some(h) => {
            lemma_nearest_index_in_range(sc.spheres, origin, dir, sc.spheres.len() as int);
            let m = sc.materials[h.material];
            let reflect_dir = crate::shading::sp_reflect(dir, h.normal);
            let reflect_orig = crate::shading::sp_offset_origin(
                h.point,
                h.normal,
                crate::vec3::sp_dot(reflect_dir, h.normal),
            );
            if depth > 0 {
                lemma_mirror_scene_converges_to_background(
                    sc,
                    reflect_orig,
                    reflect_dir,
                    (depth - 1) as nat,
                );
            }
            let acc = sp_light_acc(sc, h.point, h.normal, dir, m.specular_exponent, sc.lights.len() as int);
            lemma_mul_zero(crate::fixed::sp_mul(m.color.x, acc.0));
            lemma_mul_zero(crate::fixed::sp_mul(m.color.y, acc.0));
            lemma_mul_zero(crate::fixed::sp_mul(m.color.z, acc.0));
            lemma_mul_zero(crate::fixed::sp_mul(ONE as int, acc.1));
            lemma_mul_unit(sc.background.x);
            lemma_mul_unit(sc.background.y);
            lemma_mul_unit(sc.background.z);
        },
    }
}

} // verus!
