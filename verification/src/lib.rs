//! Build-performance benchmarking of a compiled project under a matrix of
//! toolchain configurations, centred on a verified hot-patch timing state
//! machine.
//!
//! The library holds the pure logic: deriving identifiers and payload values
//! from a configuration tuple, generating the per-scenario project artifacts,
//! enumerating the scenario matrix, and the session state machine that
//! synchronizes on output markers under a deadline. Process and file system
//! work lives outside, in the surrounding application.

pub mod artifacts;
pub mod errors;
pub mod orchestrator;
pub mod scenario;
pub mod session;
pub mod text;
pub mod values;
