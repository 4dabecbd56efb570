//! Host-side orchestration of an acoustic path marcher.
//!
//! The device computes; this library decides. It fixes which buffers a pipeline
//! invocation owns, how each kernel is bound, in which order dispatches,
//! synchronization points and read-backs follow one another, which invocations
//! and output files a scene gives rise to, and how quantized pixels and samples
//! are laid out and encoded.

pub mod audio;
pub mod buffers;
pub mod config;
pub mod kernels;
pub mod orchestrator;
pub mod paths;
pub mod raster;
pub mod run_loop;
