//! Lattice, hashing and gradient logic of an N-dimensional coherent-noise field.

pub mod config;
pub mod lattice;
pub mod hashing;
pub mod gradient;
mod seed;

pub use config::{ConfigError, DimensionMismatchError, Interpolation, NoiseConfig, NoiseKernel, PerlinNoise};
