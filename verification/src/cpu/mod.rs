//! The processor the suite runs on.

pub mod detection;
pub mod info;

pub use detection::{detect_cpu, DetectionError};
pub use info::{CpuGeneration, CpuInfo, CpuVendor};
