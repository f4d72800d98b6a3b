//! Description of a processor.

use vstd::prelude::*;

verus! {

/// Maker of the processor.
#[derive(Debug, Clone, Copy, PartialEq, Eq, Structural)]
pub enum CpuVendor {
    Intel,
    AMD,
    Unknown,
}

/// Microarchitecture generation of the processor.
#[derive(Debug, Clone, Copy, PartialEq, Eq, Structural)]
pub enum CpuGeneration {
    // Intel
    Skylake,
    CoffeeLake,
    XeonV2,
    // AMD
    Zen2,
    Zen3,
    Unknown,
}

/// Descriptor of the processor a run is made on. The suite attaches it to the
/// results and never looks inside.
#[derive(Debug, PartialEq, Eq)]
pub struct CpuInfo {
    pub vendor: CpuVendor,
    pub generation: CpuGeneration,
    pub model_name: String,
}

} // verus!
