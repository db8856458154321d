//! A Whitted-style ray tracer over analytic spheres, computed entirely in
//! fixed-point arithmetic: every coordinate, color channel and light
//! intensity is an integer count of 1/65536 world units.  The renderer casts
//! one primary ray per pixel, finds the nearest sphere hit, and shades it
//! with Phong diffuse and specular terms, hard shadows, bounded-depth mirror
//! reflection, and an optional spherical environment-map background.

pub mod fixed;
pub mod geometry;
pub mod laws;
pub mod render;
pub mod scene;
pub mod shading;
pub mod trig;
pub mod vec3;
