//! Sizes of the text buffers handed to the vendor library.

use vstd::prelude::*;

verus! {

/// Bytes reserved for the library's own version string.
pub const NVML_VERSION_BUFFER_SIZE: usize = 80;

/// Bytes reserved for the driver version string.
pub const DRIVER_VERSION_BUFFER_SIZE: usize = 80;

/// Bytes reserved for a device name.
pub const DEVICE_NAME_BUFFER_SIZE: usize = 64;

} // verus!
