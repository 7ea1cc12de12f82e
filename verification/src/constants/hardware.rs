//! Driver and hardware constraints.

use vstd::prelude::*;

verus! {

/// Oldest major driver version that exposes the calls this crate issues.
pub const MIN_DRIVER_VERSION: u32 = 550;

/// Sensor index of the GPU die temperature.
pub const GPU_TEMP_SENSOR: u32 = 0;

/// Milliwatts in one watt.
pub const MILLIWATTS_TO_WATTS: u32 = 1000;

} // verus!
