//! The renderer driver: the fixed-origin perspective camera, the
//! fixed-point-to-byte color conversion, and the row-major loop that shades
//! every pixel of the output grid.

use vstd::prelude::*;

verus! {

use crate::fixed::{ONE, sp_tdiv, sp_sub, sp_mul, sp_neg, tdiv128, fx_sub, fx_mul, fx_neg};
use crate::scene::{Scene, SceneS, sp_scene_wf};
use crate::shading::{sp_cast, cast_ray};
use crate::vec3::{Vec3, V3, sp_normalize_v};

/// One output pixel, one byte per channel.
#[derive(Clone, Copy, PartialEq, Eq, Structural, Debug)]
pub struct Rgb {
    pub r: u8,
    pub g: u8,
    pub b: u8,
}

/// A fixed-point color channel scaled onto bytes: multiplied by 255,
/// truncated to an integer, and saturated into `0 ..= 255` (the clamping a
/// float-to-byte conversion performs on out-of-range lighting sums).
pub open spec fn sp_channel(c: int) -> int {
    let v = sp_tdiv(c * 255, ONE as int);
    if v < 0 {
        0
    } else if v > 255 {
        255
    } else {
        v
    }
}

pub open spec fn sp_to_rgb(c: V3) -> (int, int, int) {
    (sp_channel(c.x), sp_channel(c.y), sp_channel(c.z))
}

/// A byte channel brought onto the fixed-point 0..1 range:
/// `c * ONE / 255`, rounded up.  The ceiling keeps `255 * result` at or
/// above `c * ONE`, so the truncating `sp_channel` recovers every byte
/// exactly (see `laws::lemma_channel_round_trip`); rounding down instead
/// would return each byte in `1 ..= 254` one step darker.
pub open spec fn sp_from_channel(c: int) -> int {
    sp_tdiv(c * (ONE as int) + 254, 255)
}

fn channel_byte(c: i64) -> (r: u8)
    ensures
        r as int == sp_channel(c as int),
{
    let v = tdiv128((c as i128) * 255, 65536);
    if v < 0 {
        0
    } else if v > 255 {
        255
    } else {
        v as u8
    }
}

pub fn to_rgb(color: &Vec3) -> (r: Rgb)
    ensures
        (r.r as int, r.g as int, r.b as int) == sp_to_rgb(color@),
{
    Rgb { r: channel_byte(color.x), g: channel_byte(color.y), b: channel_byte(color.z) }
}

pub fn to_normal_rgb(r: u8, g: u8, b: u8) -> (v: Vec3)
    ensures
        v@ == (V3 {
            x: sp_from_channel(r as int),
            y: sp_from_channel(g as int),
            z: sp_from_channel(b as int),
        }),
{
    let x = tdiv128((r as i128) * 65536 + 254, 255);
    let y = tdiv128((g as i128) * 65536 + 254, 255);
    let z = tdiv128((b as i128) * 65536 + 254, 255);
    Vec3 { x: x as i64, y: y as i64, z: z as i64 }
}

/// The primary ray direction through pixel `(px, py)`: the pixel center is
/// mapped onto the view plane at `z = -1` scaled by the tangent of half
/// the field of view (and by the aspect ratio horizontally, with the y
/// axis flipped because row 0 is the top of the image), then normalized.
pub open spec fn sp_pixel_dir(width: int, height: int, tan_half_fov: int, px: int, py: int) -> V3
    recommends
        0 < width,
        0 < height,
{
    let sx = sp_mul(
        sp_mul(sp_sub(sp_tdiv((2 * px + 1) * (ONE as int), width), ONE as int), tan_half_fov),
        sp_tdiv(width * (ONE as int), height),
    );
    let sy = sp_neg(
        sp_mul(sp_sub(sp_tdiv((2 * py + 1) * (ONE as int), height), ONE as int), tan_half_fov),
    );
    sp_normalize_v(V3 { x: sx, y: sy, z: -(ONE as int) })
}

pub fn pixel_direction(width: usize, height: usize, tan_half_fov: i64, px: usize, py: usize) -> (r:
    Vec3)
    requires
        0 < width <= 1_000_000,
        0 < height <= 1_000_000,
        px < width,
        py < height,
    ensures
        r@ == sp_pixel_dir(width as int, height as int, tan_half_fov as int, px as int, py as int),
{
    let qx = tdiv128((2 * (px as i128) + 1) * 65536, width as i128);
    let qy = tdiv128((2 * (py as i128) + 1) * 65536, height as i128);
    let aspect = tdiv128((width as i128) * 65536, height as i128);
    let sx = fx_mul(fx_mul(fx_sub(qx as i64, ONE), tan_half_fov), aspect as i64);
    let sy = fx_neg(fx_mul(fx_sub(qy as i64, ONE), tan_half_fov));
    Vec3 { x: sx, y: sy, z: -ONE }.normalize()
}

/// What one output pixel must hold: the camera ray from the origin through
/// the pixel, cast into the scene with the given reflection depth, then
/// scaled onto bytes.
pub open spec fn sp_render_pixel(
    sc: SceneS,
    width: int,
    height: int,
    tan_half_fov: int,
    depth: nat,
    px: int,
    py: int,
) -> (int, int, int) {
    sp_to_rgb(
        sp_cast(
            sc,
            V3 { x: 0, y: 0, z: 0 },
            sp_pixel_dir(width, height, tan_half_fov, px, py),
            depth,
        ),
    )
}

pub open spec fn sp_pixel_ok(
    p: Rgb,
    sc: SceneS,
    width: int,
    height: int,
    tan_half_fov: int,
    depth: nat,
    px: int,
    py: int,
) -> bool {
    (p.r as int, p.g as int, p.b as int) == sp_render_pixel(sc, width, height, tan_half_fov, depth, px, py)
}

proof fn lemma_row_major_bound(qy: int, qx: int, py: int, width: int)
    by (nonlinear_arith)
    requires
        0 <= qx < width,
        0 <= qy < py,
    ensures
        0 <= qy * width + qx < py * width,
{
}

/// Renders the full grid in row-major order: pixel `(px, py)` lands at
/// index `py * width + px`, and every pixel holds exactly the color of its
/// own camera ray.  The per-axis extent cap is a machine limit: it keeps
/// the projection and index arithmetic inside `i128`, and any real image
/// is far smaller.
pub fn render(scene: &Scene, width: usize, height: usize, tan_half_fov: i64, depth: u32) -> (pixels:
    Vec<Rgb>)
    requires
        sp_scene_wf(scene@),
        0 < width <= 1_000_000,
        0 < height <= 1_000_000,
        width * height <= usize::MAX,
    ensures
        pixels@.len() == (width as int) * (height as int),
        forall|py: int, px: int|
            0 <= py < height && 0 <= px < width ==> sp_pixel_ok(
                #[trigger] pixels@[py * width + px],
                scene@,
                width as int,
                height as int,
                tan_half_fov as int,
                depth as nat,
                px,
                py,
            ),
{
    let origin = Vec3 { x: 0, y: 0, z: 0 };
    let mut pixels: Vec<Rgb> = Vec::new();
    let mut py: usize = 0;
    while py < height
        invariant
            sp_scene_wf(scene@),
            0 < width <= 1_000_000,
            0 < height <= 1_000_000,
            width * height <= usize::MAX,
            origin@ == (V3 { x: 0, y: 0, z: 0 }),
            py <= height,
            pixels@.len() == (py as int) * (width as int),
            forall|qy: int, qx: int|
                0 <= qy < py && 0 <= qx < width ==> sp_pixel_ok(
                    #[trigger] pixels@[qy * width + qx],
                    scene@,
                    width as int,
                    height as int,
                    tan_half_fov as int,
                    depth as nat,
                    qx,
                    qy,
                ),
        decreases height - py,
    {
        let mut px: usize = 0;
        while px < width
            invariant
                sp_scene_wf(scene@),
                0 < width <= 1_000_000,
                0 < height <= 1_000_000,
                width * height <= usize::MAX,
                origin@ == (V3 { x: 0, y: 0, z: 0 }),
                py < height,
                px <= width,
                pixels@.len() == (py as int) * (width as int) + px as int,
                forall|qy: int, qx: int|
                    0 <= qy < py && 0 <= qx < width ==> sp_pixel_ok(
                        #[trigger] pixels@[qy * width + qx],
                        scene@,
                        width as int,
                        height as int,
                        tan_half_fov as int,
                        depth as nat,
                        qx,
                        qy,
                    ),
                forall|qx: int|
                    0 <= qx < px ==> sp_pixel_ok(
                        #[trigger] pixels@[(py as int) * (width as int) + qx],
                        scene@,
                        width as int,
                        height as int,
                        tan_half_fov as int,
                        depth as nat,
                        qx,
                        py as int,
                    ),
            decreases width - px,
        {
            let dir = pixel_direction(width, height, tan_half_fov, px, py);
            let color = cast_ray(scene, &origin, &dir, depth);
            let pixel = to_rgb(&color);
            proof {
                assert((py as int) * (width as int) + (px as int) + 1 <= (py as int + 1) * (
                width as int)) by (nonlinear_arith)
                    requires
                        0 <= px < width,
                    ;
                assert((py as int + 1) * (width as int) <= (height as int) * (width as int))
                    by (nonlinear_arith)
                    requires
                        0 <= py < height,
                        0 < width,
                    ;
                assert((height as int) * (width as int) == (width as int) * (height as int))
                    by (nonlinear_arith);
            }
            pixels.push(pixel);
            proof {
                assert forall|qy: int, qx: int| 0 <= qy < py && 0 <= qx < width implies sp_pixel_ok(
                    #[trigger] pixels@[qy * width + qx],
                    scene@,
                    width as int,
                    height as int,
                    tan_half_fov as int,
                    depth as nat,
                    qx,
                    qy,
                ) by {
                    lemma_row_major_bound(qy, qx, py as int, width as int);
                    assert(qy * width + qx < (py as int) * (width as int) + px as int);
                }
            }
            px = px + 1;
        }
        proof {
            assert((py as int) * (width as int) + (width as int) == (py as int + 1) * (width as int))
                by (nonlinear_arith);
        }
        py = py + 1;
    }
    proof {
        assert((height as int) * (width as int) == (width as int) * (height as int))
            by (nonlinear_arith);
    }
    pixels
}

} // verus!
