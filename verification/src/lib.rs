//! Verified core of a firmware pre-boot services test runner.
//!
//! The runner exercises a firmware environment in a fixed order: privileged
//! hardware probes first, then a revision-compatibility check, then the three
//! service test stages, and finally the one-way hand-off from the dual-mode
//! (boot + runtime) environment to the runtime-only environment, followed by
//! process exit or a power-off request.
//!
//! Everything that touches hardware, serial devices or firmware tables lives
//! outside this crate; the modules here hold the decisions and the
//! sequencing, each with a proved contract.

pub mod handshake;
pub mod probe;
pub mod revision;
pub mod runner;
pub mod trace;
