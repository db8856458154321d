//! Three-component vectors of fixed-point values, used as positions,
//! directions and colors.  The spec model `V3` carries the components as
//! unbounded integers; every executable operation states its result exactly
//! over that model.

use vstd::prelude::*;

verus! {

use crate::fixed::{
    sp_add, sp_sub, sp_mul, sp_div, sp_sqrt,
    fx_add, fx_sub, fx_mul, fx_div, fx_sqrt,
};

/// Spec-level vector: the three fixed-point components as integers.
pub ghost struct V3 {
    pub x: int,
    pub y: int,
    pub z: int,
}

#[derive(Clone, Copy, PartialEq, Eq, Structural, Debug)]
pub struct Vec3 {
    pub x: i64,
    pub y: i64,
    pub z: i64,
}

impl View for Vec3 {
    type V = V3;

    open spec fn view(&self) -> V3 {
        V3 { x: self.x as int, y: self.y as int, z: self.z as int }
    }
}

/// Whether each component is a representable fixed-point value; every
/// `Vec3`'s view satisfies this.
pub open spec fn sp_v3_in_range(v: V3) -> bool {
    &&& i64::MIN <= v.x <= i64::MAX
    &&& i64::MIN <= v.y <= i64::MAX
    &&& i64::MIN <= v.z <= i64::MAX
}

pub open spec fn sp_add_v(a: V3, b: V3) -> V3 {
    V3 { x: sp_add(a.x, b.x), y: sp_add(a.y, b.y), z: sp_add(a.z, b.z) }
}

pub open spec fn sp_sub_v(a: V3, b: V3) -> V3 {
    V3 { x: sp_sub(a.x, b.x), y: sp_sub(a.y, b.y), z: sp_sub(a.z, b.z) }
}

/// Each component scaled by the fixed-point factor `k`.
pub open spec fn sp_scale_v(a: V3, k: int) -> V3 {
    V3 { x: sp_mul(a.x, k), y: sp_mul(a.y, k), z: sp_mul(a.z, k) }
}

/// Dot product, accumulated left to right over the clamped operations.
pub open spec fn sp_dot(a: V3, b: V3) -> int {
    sp_add(sp_add(sp_mul(a.x, b.x), sp_mul(a.y, b.y)), sp_mul(a.z, b.z))
}

/// Euclidean length: the fixed-point square root of the self dot product.
pub open spec fn sp_norm(a: V3) -> int {
    sp_sqrt(sp_dot(a, a))
}

/// Unit vector in the direction of `a`; the zero vector (whose length is 0)
/// is returned unchanged.
pub open spec fn sp_normalize_v(a: V3) -> V3 {
    let n = sp_norm(a);
    if n == 0 {
        a
    } else {
        V3 { x: sp_div(a.x, n), y: sp_div(a.y, n), z: sp_div(a.z, n) }
    }
}

impl Vec3 {
    pub fn new(x: i64, y: i64, z: i64) -> (r: Vec3)
        ensures
            r@ == (V3 { x: x as int, y: y as int, z: z as int }),
    {
        Vec3 { x, y, z }
    }

    pub fn add(&self, other: &Vec3) -> (r: Vec3)
        ensures
            r@ == sp_add_v(self@, other@),
    {
        Vec3 { x: fx_add(self.x, other.x), y: fx_add(self.y, other.y), z: fx_add(self.z, other.z) }
    }

    pub fn sub(&self, other: &Vec3) -> (r: Vec3)
        ensures
            r@ == sp_sub_v(self@, other@),
    {
        Vec3 { x: fx_sub(self.x, other.x), y: fx_sub(self.y, other.y), z: fx_sub(self.z, other.z) }
    }

    pub fn scale(&self, k: i64) -> (r: Vec3)
        ensures
            r@ == sp_scale_v(self@, k as int),
    {
        Vec3 { x: fx_mul(self.x, k), y: fx_mul(self.y, k), z: fx_mul(self.z, k) }
    }

    pub fn dot(&self, other: &Vec3) -> (r: i64)
        ensures
            r as int == sp_dot(self@, other@),
    {
        fx_add(fx_add(fx_mul(self.x, other.x), fx_mul(self.y, other.y)), fx_mul(self.z, other.z))
    }

    pub fn norm(&self) -> (r: i64)
        ensures
            r as int == sp_norm(self@),
    {
        fx_sqrt(self.dot(self))
    }

    pub fn normalize(&self) -> (r: Vec3)
        ensures
            r@ == sp_normalize_v(self@),
    {
        let n = self.norm();
        if n == 0 {
            *self
        } else {
            Vec3 { x: fx_div(self.x, n), y: fx_div(self.y, n), z: fx_div(self.z, n) }
        }
    }
}

} // verus!
