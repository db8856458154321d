//! Ray-sphere intersection and the nearest-hit search over a scene's
//! spheres.  `sp_intersect` states the exact branch sequence of the
//! intersection test, including the fall-back to the far root when the ray
//! starts inside the sphere; `sp_nearest` states the strict-less minimum
//! search in which the earliest sphere wins exact ties.

use vstd::prelude::*;

verus! {

use crate::fixed::{sp_add, sp_sub, sp_mul, sp_sqrt, fx_add, fx_sub, fx_mul, fx_sqrt};
use crate::scene::{Sphere, SphereS};
use crate::vec3::{
    Vec3, V3, sp_add_v, sp_sub_v, sp_scale_v, sp_dot, sp_normalize_v,
};

/// The distance along the ray at which it first meets the sphere:
/// `None` on a miss.  With `l` the vector from the ray origin to the
/// center, `tca` its projection on the direction and `d2` the squared
/// distance of the center from the ray's line, the ray misses when `d2`
/// exceeds the squared radius; otherwise the near root `tca - thc` is
/// returned, falling back to the far root `tca + thc` when the near one
/// lies behind the origin, and reporting a miss when both do.
pub open spec fn sp_intersect(s: SphereS, origin: V3, dir: V3) -> Option<int> {
    let l = sp_sub_v(s.coordinates, origin);
    let tca = sp_dot(l, dir);
    let d2 = sp_sub(sp_dot(l, l), sp_mul(tca, tca));
    let r2 = sp_mul(s.radius, s.radius);
    if d2 > r2 {
        Option::None
    } else {
        let thc = sp_sqrt(sp_sub(r2, d2));
        let t0 = sp_sub(tca, thc);
        let t1 = sp_add(tca, thc);
        if t0 < 0 {
            if t1 < 0 {
                Option::None
            } else {
                Option::Some(t1)
            }
        } else {
            Option::Some(t0)
        }
    }
}

impl Sphere {
    pub fn ray_intersect(&self, origin: &Vec3, dir: &Vec3) -> (r: Option<i64>)
        ensures
            match r {
                Option::Some(t) => sp_intersect(self@, origin@, dir@) == Option::Some(t as int),
                Option::None => sp_intersect(self@, origin@, dir@) is None,
            },
    {
        let l = self.coordinates.sub(origin);
        let tca = l.dot(dir);
        let d2 = fx_sub(l.dot(&l), fx_mul(tca, tca));
        let r2 = fx_mul(self.radius, self.radius);
        if d2 > r2 {
            Option::None
        } else {
            let thc = fx_sqrt(fx_sub(r2, d2));
            let t0 = fx_sub(tca, thc);
            let t1 = fx_add(tca, thc);
            if t0 < 0 {
                if t1 < 0 {
                    Option::None
                } else {
                    Option::Some(t1)
                }
            } else {
                Option::Some(t0)
            }
        }
    }
}

/// The index and distance of the nearest intersected sphere among the
/// first `n`, scanning in list order and replacing the running best only
/// on a strictly smaller distance, so the earliest sphere wins exact ties.
pub open spec fn sp_nearest(spheres: Seq<SphereS>, origin: V3, dir: V3, n: int) -> Option<(int, int)>
    decreases n,
{
    if n <= 0 {
        Option::None
    } else {
        let prev = sp_nearest(spheres, origin, dir, n - 1);
        match sp_intersect(spheres[n - 1], origin, dir) {
            Option::Some(t) => match prev {
                Option::Some(best) => if t < best.1 {
                    Option::Some((n - 1, t))
                } else {
                    prev
                },
                Option::None => Option::Some((n - 1, t)),
            },
            Option::None => prev,
        }
    }
}

/// Everything the shading step needs about a surface hit.
#[derive(Clone, Copy, PartialEq, Eq, Structural, Debug)]
pub struct Hit {
    pub point: Vec3,
    pub normal: Vec3,
    pub material: usize,
    pub distance: i64,
}

pub ghost struct HitS {
    pub point: V3,
    pub normal: V3,
    pub material: int,
    pub distance: int,
}

impl View for Hit {
    type V = HitS;

    open spec fn view(&self) -> HitS {
        HitS {
            point: self.point@,
            normal: self.normal@,
            material: self.material as int,
            distance: self.distance as int,
        }
    }
}

/// The nearest hit of the ray against the whole sphere list: the hit point
/// lies `distance` along the ray, and the normal is the unit vector from
/// the winning sphere's center through that point.
pub open spec fn sp_hit(spheres: Seq<SphereS>, origin: V3, dir: V3) -> Option<HitS> {
    match sp_nearest(spheres, origin, dir, spheres.len() as int) {
        Option::Some(best) => {
            let s = spheres[best.0];
            let point = sp_add_v(origin, sp_scale_v(dir, best.1));
            Option::Some(
                HitS {
                    point: point,
                    normal: sp_normalize_v(sp_sub_v(point, s.coordinates)),
                    material: s.material,
                    distance: best.1,
                },
            )
        },
        Option::None => Option::None,
    }
}

pub fn ray_spheres_intersection(spheres: &Vec<Sphere>, origin: &Vec3, dir: &Vec3) -> (r: Option<
    Hit,
>)
    ensures
        match r {
            Option::Some(h) => sp_hit(spheres@.map_values(|s: Sphere| s@), origin@, dir@)
                == Option::Some(h@),
            Option::None => sp_hit(spheres@.map_values(|s: Sphere| s@), origin@, dir@) is None,
        },
{
    let ghost sps = spheres@.map_values(|s: Sphere| s@);
    let n = spheres.len();
    let mut best: Option<(usize, i64)> = Option::None;
    let mut i: usize = 0;
    while i < n
        invariant
            n == spheres@.len(),
            sps == spheres@.map_values(|s: Sphere| s@),
            i <= n,
            match best {
                Option::Some(b) => b.0 < i && sp_nearest(sps, origin@, dir@, i as int)
                    == Option::Some((b.0 as int, b.1 as int)),
                Option::None => sp_nearest(sps, origin@, dir@, i as int) is None,
            },
        decreases n - i,
    {
        proof {
            assert(sps[i as int] == spheres@[i as int]@);
        }
        match spheres[i].ray_intersect(origin, dir) {
            Option::Some(t) => {
                let replace = match best {
                    Option::Some(b) => t < b.1,
                    Option::None => true,
                };
                if replace {
                    best = Option::Some((i, t));
                }
            },
            Option::None => {},
        }
        i = i + 1;
    }
    match best {
        Option::Some((idx, t)) => {
            proof {
                assert(sps[idx as int] == spheres@[idx as int]@);
            }
            let s = spheres[idx];
            let point = origin.add(&dir.scale(t));
            let normal = point.sub(&s.coordinates).normalize();
            Option::Some(Hit { point, normal, material: s.material, distance: t })
        },
        Option::None => Option::None,
    }
}

} // verus!
