//! Procedural generator for a collection of visually distinct fractal images.
//!
//! All continuous quantities (zoom, offsets, rotation, complexity, and the
//! rasterizer's complex-plane arithmetic) are carried in thousandths
//! ("milli" units) on machine integers, so every computation is exact,
//! deterministic and verified. The crate covers the parametric rasterizer,
//! the budget-constrained encoder search, rarity classification, duplicate
//! fingerprinting and the orchestration loop; image codecs, hashing and
//! random draws are reached through thin trusted wrappers around outside
//! crates.

pub mod digest;
pub mod fixed;
pub mod fractal;
pub mod generator;
pub mod metadata;
pub mod optimizer;
pub mod rng;
