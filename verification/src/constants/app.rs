//! What the program calls itself.

use vstd::prelude::*;

verus! {

pub const VERSION: &'static str = "0.1.0";

pub const NAME: &'static str = "nvoc";

pub const AUTHOR: &'static str = "NVOC Contributors";

pub const DESCRIPTION: &'static str = "NVIDIA GPU overclocking utility for Blackwell (RTX 50-series)";

} // verus!
