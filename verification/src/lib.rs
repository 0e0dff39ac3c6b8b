//! Deterministic, stochastic generator of textured ("chalk-like") stroke
//! primitives: given a line segment, a stroke width and a set of texture
//! options, it produces a reproducible scatter of small elliptical dots that
//! approximate a textured brush stroke.
//!
//! Every scalar that would ordinarily be an `f64` is carried through the
//! library as the `u64` bit pattern of that `f64` (IEEE 754 binary64,
//! as `f64::to_bits` / `f64::from_bits` exchange them). Callers convert at
//! the boundary. This lets the library state and prove exact facts about
//! the bit-level order of those scalars, while the floating-point
//! arithmetic itself is performed by trusted primitives.

pub mod compose;
pub mod fbits;
pub mod ops;
pub mod geom;
pub mod options;
pub mod rng;
pub mod sampler;
