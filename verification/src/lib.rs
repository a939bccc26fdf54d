//! Decision logic of a benchmark harness that measures the end-to-end latency
//! of serverless workflows under several container-isolation baselines.
//!
//! The library holds everything that decides or computes; all contact with the
//! cluster, the object store and the file system is left to the caller, which
//! performs the actions that the orchestrator emits and reports back what
//! happened.

pub mod baseline;
pub mod cluster;
pub mod eval;
pub mod laws;
pub mod machine;
pub mod orchestrator;
pub mod recorder;
pub mod runs;
pub mod templater;
pub mod text;
pub mod timing;
pub mod ubench;
pub mod workflow;
