//! Verified decision core of a Monte-Carlo ray tracer.
//!
//! Rendering evaluates radiance with floating-point arithmetic, which stays
//! outside this crate. What this crate verifies is every discrete decision
//! that evaluation rests on: which intersection is the closest, whether a
//! light is occluded, which root of the sphere quadratic counts as the hit,
//! what a refraction attempt resolves to, which radiance terms are active at
//! a bounce, which kind of indirect bounce a sample takes, which area light
//! a direct-lighting sample aims at, where an animation stands at an
//! evaluation time, and how a pixel maps to an offset on the image plane.
//! The renderer computes the numeric comparisons and hands their outcomes in
//! as plain values; each function here fixes the resulting decision exactly.

pub mod animate;
pub mod camera;
pub mod material;
pub mod ray;
pub mod scene;
pub mod sphere;
