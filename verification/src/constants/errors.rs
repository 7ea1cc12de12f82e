//! Status codes with a meaning of their own.

use vstd::prelude::*;

verus! {

/// Status code the vendor library uses for an error it cannot name.
pub const NVML_UNKNOWN_ERROR_CODE: u32 = 999;

} // verus!
