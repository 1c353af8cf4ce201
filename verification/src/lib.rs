//! A minimal harness for running single-shot GPU compute workloads.
//!
//! The crate models the host-side orchestration of one allocate-run-readback
//! cycle: a context that selects a compute-capable queue, passes that allocate
//! resources and record commands, and a reference semantics for the recorded
//! commands against which the readback can be checked.

pub mod blur_pass;
pub mod color;
pub mod command;
pub mod context;
pub mod fractal_pass;
pub mod geometry;
pub mod host;
pub mod lifecycle;
pub mod machine;
pub mod resources;
pub mod test_pass;
