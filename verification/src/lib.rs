//! The decisions of a recursive ray tracer, verified.
//!
//! A ray tracer is arithmetic on binary64 numbers, and decisions taken on
//! the results: whether a root lies in a window, which of two hits is the
//! nearer, whether a direction is too short to use, when a path has bounced
//! often enough, which level a colour gets in the file. This library takes
//! the decisions, and proves of each what it returns. The arithmetic belongs
//! to the caller, who hands over each number by its encoding, as
//! `to_bits` gives it, and gets numbers back the same way.
//!
//! - [`scalar`]: numbers by their encodings; comparison, sign, truncation
//! - [`interval`], [`vec3`], [`ray`]: ranges, vectors and rays of scalars
//! - [`material`]: the three materials and the rays that leave them
//! - [`hittable`], [`sphere`], [`aabb`]: hits, and the shapes that are hit
//! - [`hittable_list`]: a scene, which reports the nearest hit
//! - [`camera`]: settings, the order of the pixels, the depth of a path
//! - [`color`], [`ppm`]: colour levels and the text of the image file

pub mod scalar;
pub mod interval;
pub mod vec3;
pub mod ray;
pub mod material;
pub mod hittable;
pub mod sphere;
pub mod hittable_list;
pub mod ppm;
pub mod color;
pub mod aabb;
pub mod camera;
