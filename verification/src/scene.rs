//! The scene description: materials, point lights, spheres, the optional
//! environment map, and the scene that owns them.  Spheres refer to their
//! material by index into the scene's material table, so materials can be
//! shared without lifetime entanglement.

use vstd::prelude::*;

verus! {

use crate::fixed::{sp_tdiv, tdiv128};
use crate::trig::{FX_PI, FX_TWO_PI, sp_atan2, sp_acos, fx_atan2, fx_acos};
use crate::vec3::{Vec3, V3};

/// A surface description: base color, the blend weights of the three
/// shading terms (`albedo.x` diffuse, `albedo.y` specular, `albedo.z`
/// mirror reflection), and the Phong specular exponent.
#[derive(Clone, Copy, PartialEq, Eq, Structural, Debug)]
pub struct Material {
    pub color: Vec3,
    pub albedo: Vec3,
    pub specular_exponent: u32,
}

pub ghost struct MaterialS {
    pub color: V3,
    pub albedo: V3,
    pub specular_exponent: nat,
}

impl View for Material {
    type V = MaterialS;

    open spec fn view(&self) -> MaterialS {
        MaterialS {
            color: self.color@,
            albedo: self.albedo@,
            specular_exponent: self.specular_exponent as nat,
        }
    }
}

impl Material {
    pub fn new(color: Vec3, albedo: Vec3, specular_exponent: u32) -> (r: Material)
        requires
            specular_exponent > 0,
        ensures
            r.color == color,
            r.albedo == albedo,
            r.specular_exponent == specular_exponent,
    {
        Material { color, albedo, specular_exponent }
    }
}

/// A point light of positive intensity.
#[derive(Clone, Copy, PartialEq, Eq, Structural, Debug)]
pub struct Light {
    pub coordinates: Vec3,
    pub intensity: i64,
}

pub ghost struct LightS {
    pub coordinates: V3,
    pub intensity: int,
}

impl View for Light {
    type V = LightS;

    open spec fn view(&self) -> LightS {
        LightS { coordinates: self.coordinates@, intensity: self.intensity as int }
    }
}

impl Light {
    pub fn new(coordinates: Vec3, intensity: i64) -> (r: Light)
        requires
            intensity > 0,
        ensures
            r.coordinates == coordinates,
            r.intensity == intensity,
    {
        Light { coordinates, intensity }
    }
}

/// A sphere of strictly positive radius; `material` indexes the scene's
/// material table.
#[derive(Clone, Copy, PartialEq, Eq, Structural, Debug)]
pub struct Sphere {
    pub radius: i64,
    pub coordinates: Vec3,
    pub material: usize,
}

pub ghost struct SphereS {
    pub radius: int,
    pub coordinates: V3,
    pub material: int,
}

impl View for Sphere {
    type V = SphereS;

    open spec fn view(&self) -> SphereS {
        SphereS {
            radius: self.radius as int,
            coordinates: self.coordinates@,
            material: self.material as int,
        }
    }
}

impl Sphere {
    pub fn new(radius: i64, coordinates: Vec3, material: usize) -> (r: Sphere)
        requires
            radius > 0,
        ensures
            r.radius == radius,
            r.coordinates == coordinates,
            r.material == material,
    {
        Sphere { radius, coordinates, material }
    }
}

/// A background image sampled by ray direction, stored row-major.
pub struct EnvMap {
    pub width: usize,
    pub height: usize,
    pub pixels: Vec<Vec3>,
}

pub ghost struct EnvMapS {
    pub width: int,
    pub height: int,
    pub pixels: Seq<V3>,
}

impl View for EnvMap {
    type V = EnvMapS;

    open spec fn view(&self) -> EnvMapS {
        EnvMapS {
            width: self.width as int,
            height: self.height as int,
            pixels: self.pixels@.map_values(|p: Vec3| p@),
        }
    }
}

pub open spec fn sp_envmap_wf(em: EnvMapS) -> bool {
    &&& 0 < em.width <= 1_000_000
    &&& 0 < em.height <= 1_000_000
    &&& em.pixels.len() == em.width * em.height
}

/// An index into `0 .. len`, clamped at both ends.
pub open spec fn sp_clamp_index(i: int, len: int) -> int {
    if i < 0 {
        0
    } else if i >= len {
        len - 1
    } else {
        i
    }
}

/// The spherical-coordinate pixel lookup of a direction: the azimuth
/// `atan2(dz, dx)` is shifted from `[-pi, pi]` onto `[0, width)` and the
/// polar angle `acos(dy)` is mapped onto `[0, height)`, each floored to an
/// integer index and clamped to the valid range.
pub open spec fn sp_env_uv(width: int, height: int, dir: V3) -> (int, int) {
    let azimuth = sp_atan2(dir.z, dir.x);
    let polar = sp_acos(dir.y);
    (
        sp_clamp_index(sp_tdiv((azimuth + FX_PI as int) * width, FX_TWO_PI as int), width),
        sp_clamp_index(sp_tdiv(polar * height, FX_PI as int), height),
    )
}

pub open spec fn sp_env_sample(em: EnvMapS, dir: V3) -> V3 {
    let uv = sp_env_uv(em.width, em.height, dir);
    em.pixels[uv.1 * em.width + uv.0]
}

/// Maps `(angle + offset) * extent / denom`, truncated, onto `0 .. extent`.
fn env_axis_index(angle: i64, offset: i64, extent: usize, denom: i64) -> (r: usize)
    requires
        denom > 0,
        0 < extent <= 1_000_000,
    ensures
        r as int == sp_clamp_index(
            sp_tdiv((angle + offset) * (extent as int), denom as int),
            extent as int,
        ),
{
    let shifted: i128 = angle as i128 + offset as i128;
    proof {
        assert(
            -0x10_0000_0000_0000_0000_0000 <= shifted * (extent as int)
                <= 0x10_0000_0000_0000_0000_0000
        ) by (nonlinear_arith)
            requires
                -0x1_0000_0000_0000_0000 <= shifted <= 0x1_0000_0000_0000_0000,
                0 <= extent <= 1_000_000,
        {
        }
    }
    let product: i128 = shifted * (extent as i128);
    let q: i128 = tdiv128(product, denom as i128);
    if q < 0 {
        0
    } else if q >= extent as i128 {
        extent - 1
    } else {
        q as usize
    }
}

impl EnvMap {
    /// The per-axis extent cap is a machine limit that keeps the sampler's
    /// index arithmetic inside `i128`; any real image is far smaller.
    pub fn new(width: usize, height: usize, pixels: Vec<Vec3>) -> (r: EnvMap)
        requires
            0 < width <= 1_000_000,
            0 < height <= 1_000_000,
            pixels@.len() == width * height,
        ensures
            r.width == width,
            r.height == height,
            r.pixels == pixels,
            sp_envmap_wf(r@),
    {
        EnvMap { width, height, pixels }
    }

    /// The environment color seen along `dir`.
    pub fn sample(&self, dir: &Vec3) -> (r: Vec3)
        requires
            sp_envmap_wf(self@),
        ensures
            r@ == sp_env_sample(self@, dir@),
    {
        let azimuth = fx_atan2(dir.z, dir.x);
        let polar = fx_acos(dir.y);
        let u = env_axis_index(azimuth, FX_PI, self.width, FX_TWO_PI);
        let v = env_axis_index(polar, 0, self.height, FX_PI);
        let len = self.pixels.len();
        proof {
            assert(
                (v as int) * (self.width as int) + (u as int) < (self.height as int) * (self.width as int)
            ) by (nonlinear_arith)
                requires
                    0 <= v < (self.height as int),
                    0 <= u < (self.width as int),
                    0 < self.width,
            {
            }
            assert((self.height as int) * (self.width as int) == (self.width as int) * (self.height as int))
                by (nonlinear_arith);
            assert(len == self.pixels@.len() && self@.pixels.len() == self.pixels@.len());
        }
        self.pixels[v * self.width + u]
    }
}

/// The full render input: geometry, lights, the shared material table,
/// the flat background color, and the optional environment map.
pub struct Scene {
    pub spheres: Vec<Sphere>,
    pub lights: Vec<Light>,
    pub materials: Vec<Material>,
    pub background: Vec3,
    pub envmap: Option<EnvMap>,
}

pub ghost struct SceneS {
    pub spheres: Seq<SphereS>,
    pub lights: Seq<LightS>,
    pub materials: Seq<MaterialS>,
    pub background: V3,
    pub envmap: Option<EnvMapS>,
}

impl View for Scene {
    type V = SceneS;

    open spec fn view(&self) -> SceneS {
        SceneS {
            spheres: self.spheres@.map_values(|s: Sphere| s@),
            lights: self.lights@.map_values(|l: Light| l@),
            materials: self.materials@.map_values(|m: Material| m@),
            background: self.background@,
            envmap: match self.envmap {
                Option::Some(em) => Option::Some(em@),
                Option::None => Option::None,
            },
        }
    }
}

/// Scene validity: positive radii, material indices inside the table, and
/// a well-formed environment map when one is present.
pub open spec fn sp_scene_wf(sc: SceneS) -> bool {
    &&& forall|i: int|
        0 <= i < sc.spheres.len() ==> {
            &&& 0 < (#[trigger] sc.spheres[i]).radius
            &&& 0 <= sc.spheres[i].material < sc.materials.len()
        }
    &&& match sc.envmap {
        Option::Some(em) => sp_envmap_wf(em),
        Option::None => true,
    }
}

} // verus!
