//! Clock values used when restoring defaults.

use vstd::prelude::*;

verus! {

/// Lower end of the idle clock range a Blackwell card is parked in before its
/// locked clocks are released, in MHz.
pub const BLACKWELL_IDLE_MIN: u32 = 200;

/// Upper end of that idle range, in MHz.
pub const BLACKWELL_IDLE_MAX: u32 = 250;

/// Graphics clock offset of an untuned card, in MHz.
pub const DEFAULT_GRAPHICS_OFFSET: i32 = 0;

/// Memory clock offset of an untuned card, in MHz.
pub const DEFAULT_MEMORY_OFFSET: i32 = 0;

} // verus!
