//! Identification of the processor.

use vstd::prelude::*;

use super::info::{CpuGeneration, CpuInfo, CpuVendor};

verus! {

/// The processor could not be identified. Without a descriptor no run can
/// start.
#[derive(Debug, Clone, Copy, PartialEq, Eq, Structural)]
pub struct DetectionError;

/// Display name of the processor that `detect_cpu` reports.
pub open spec fn detected_model_name() -> Seq<char> {
    "Intel Xeon Platinum 2nd Gen"@
}

/// Identifies the processor. The descriptor is fixed: a second-generation
/// Intel Xeon Platinum, whatever the host; identification never fails.
pub fn detect_cpu() -> (detected: Result<CpuInfo, DetectionError>)
    ensures
        detected matches Ok(info) && {
            &&& info.vendor == CpuVendor::Intel
            &&& info.generation == CpuGeneration::XeonV2
            &&& info.model_name@ == detected_model_name()
        },
{
    Ok(
        CpuInfo {
            vendor: CpuVendor::Intel,
            generation: CpuGeneration::XeonV2,
            model_name: "Intel Xeon Platinum 2nd Gen".to_owned(),
        },
    )
}

} // verus!
