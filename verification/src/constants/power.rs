//! Power limit arithmetic.

use vstd::prelude::*;

verus! {

/// The default power limit expressed as a percentage of itself.
pub const POWER_PRECISION: u32 = 100;

} // verus!
