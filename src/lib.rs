//! The decisions of a Monte Carlo path tracer, verified.
//!
//! - `order`: order keys that let real ray parameters be compared as integers,
//!   and the near-zero test on a vector's components.
//! - `scene`: which root of a sphere, and which primitive of a scene, a ray
//!   meets first.
//! - `material`: how each of the three materials scatters a ray, or absorbs it.
//! - `integrator`: when a light path ends, and whether it ends in the sky.
pub mod integrator;
pub mod material;
pub mod order;
pub mod scene;
