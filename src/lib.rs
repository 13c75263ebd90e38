//! Two-dimensional Perlin gradient noise: the lattice hash and the gradient
//! table of a generator, as integer data with verified contracts.
pub mod generator;
pub mod lattice;

pub use generator::{CellDirections, Perlin2};
