//! Shape of the clock range argument.

use vstd::prelude::*;

verus! {

/// Number of values in a clock range written as `min,max`.
pub const CLOCK_PARTS_COUNT: usize = 2;

/// Character between the two values of a clock range.
pub const CLOCK_SEPARATOR: char = ',';

} // verus!
