//! SplitMix: a fast, deterministic, splittable pseudorandom number generator.
//!
//! Not suitable for cryptographic use: two consecutive outputs reveal the state.

pub mod mix;
pub mod generator;
pub mod wrapper;
