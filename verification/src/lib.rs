//! Density rendering of chaotic attractors.
//!
//! A trajectory of a dynamical system is sampled once to find its extent,
//! then iterated and binned into a grid of visit counts, and the counts are
//! tone-mapped into an RGB image. The library owns the shape of a system's
//! parameters, the number and order of the steps, the placement of points on
//! the grid, the counting, the reuse of a grid between renders and the
//! assembly of the picture. It holds coordinates and coefficients in a scalar
//! type of the caller's choice and never computes with them: the update
//! rules come in through the [`Attractor`] trait, colours and random draws
//! through functions that the caller hands over.

pub mod attractor;
pub mod catalog;
pub mod histogram;
pub mod model;
pub mod persist;
pub mod picture;
pub mod raster;
pub mod render;
mod seqs;
pub mod state;

pub use attractor::Attractor;
pub use catalog::Variant;
pub use histogram::Histogram;
pub use model::Model;
pub use persist::LoadError;
pub use render::Renderer;
pub use state::State;
