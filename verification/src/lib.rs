//! A Monte-Carlo path-tracing core over fixed-point arithmetic.
//!
//! Every scalar is an `i64` holding its quantity times [`fixed::SCALE`],
//! with saturating arithmetic throughout, so every function is total and
//! its result is pinned exactly by a spec function of its inputs. The
//! randomness of the sampling loop comes from a deterministic generator
//! seeded per pixel, so a render is reproducible from its seeds; the laws
//! the tracer obeys are proved in [`laws`].

pub mod camera;
pub mod cli;
pub mod color;
pub mod fixed;
pub mod intersection;
pub mod laws;
pub mod material;
pub mod prng;
pub mod ray;
pub mod render;
pub mod texture;
pub mod vec;
