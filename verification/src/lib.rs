//! Configuration and bookkeeping core of a Cornell-box ray tracer.
//!
//! The rendering pipeline proper works on floating-point geometry and lives
//! outside this crate; what is collected here is everything the pipeline
//! decides with plain integers and booleans, stated and proved:
//!
//! - command-line argument validation ([`args`]);
//! - the split positions of the BVH build ([`accelerator`]);
//! - the preview-mode override of sample count and bounce depth, and the
//!   recursion cut-off test of the tracer ([`renderer`]);
//! - row-major pixel-buffer arithmetic and the partition of pixels across
//!   workers ([`renderer`]);
//! - sizing of the jittered sample pool ([`sampler`]);
//! - the scene factory's choices ([`scene`]);
//! - per-render ray and intersection statistics ([`counter`]).

pub mod accelerator;
pub mod args;
pub mod counter;
pub mod renderer;
pub mod sampler;
pub mod scene;
