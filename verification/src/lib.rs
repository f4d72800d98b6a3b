//! Correctness probes for a fixed catalogue of CPU instructions.
//!
//! A probe loads fixed operands into the machine, executes one instruction and
//! reads the result back. This library holds everything about a probe except the
//! execution itself: the catalogue with its operands, the reference
//! computations, the comparison of what was read back against the reference,
//! and the bookkeeping that turns the outcomes of a run into an ordered result
//! set.

pub mod config;
pub mod cpu;
pub mod suite;
pub mod timing;

pub use config::{load_config, ConfigurationError, LogLevel, OutputFormat, TestConfig};
