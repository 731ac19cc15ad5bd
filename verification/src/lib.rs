//! A small Monte Carlo path tracer over saturating fixed-point arithmetic.
//!
//! The tracer renders a scene of spheres with diffuse and metallic materials
//! into an RGBA byte buffer: a camera maps image-plane coordinates to rays,
//! the scene answers with its nearest intersection, the hit material decides
//! whether and where the ray continues, and the recursion, cut off after a
//! fixed number of bounces, is averaged over jittered samples per pixel,
//! gamma-corrected and quantized to bytes.  Every quantity is a fixed-point
//! scalar with an exact integer model, and every function's contract is
//! stated over that model; randomness comes from a caller-seeded generator
//! behind which nothing is assumed of the drawn words.

pub mod fixed;
pub mod vec3;
pub mod color;
pub mod ray;
pub mod camera;
pub mod sampling;
pub mod material;
pub mod geometry;
pub mod canvas;
