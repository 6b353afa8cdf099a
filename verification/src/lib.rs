//! Escape-time fractal computation over a rectangular region of the complex
//! plane, producing a row-major grid of one-byte intensity values.
//!
//! The numeric core works on exact fixed-point coordinates (see [`fixed`]),
//! which makes every backend's output a deterministic function of the
//! computation parameters.  The same per-pixel kernel is run by a serial
//! backend, a data-parallel backend fanned out across CPU cores, and an
//! accelerator-offload state machine whose device interaction is driven by
//! the host program.

pub mod complex;
pub mod compute_mono;
pub mod compute_ocl;
pub mod compute_rayon;
pub mod escape;
pub mod field_map;
pub mod fixed;
pub mod laws;
pub mod strategy;
pub mod timeit;
