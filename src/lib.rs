//! Micro-benchmark kernels, the decisions of the threaded runner, the
//! capability probe of each environment class, and command-line values.
pub mod args;
pub mod kernels;
pub mod probe;
pub mod runner;
