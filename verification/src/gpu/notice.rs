//! What an orchestrator tells the user while it works.
//!
//! A notice carries the content of one status line; how the line is worded
//! and where it is written is left to whoever shows it.

use vstd::prelude::*;
use crate::gpu::reset::ResetStep;
use crate::nvml::error::NvmlError;

verus! {

/// One status line, by content.
#[derive(Debug, Clone, Copy, PartialEq, Eq, Structural)]
pub enum Notice {
    /// Dry run: this clock range would be locked.
    DryClocks { min_mhz: u32, max_mhz: u32 },
    /// The clock range was locked.
    ClocksSet,
    /// Dry run: this graphics clock offset would be applied.
    DryGraphicsOffset { offset_mhz: i32 },
    /// Dry run: this memory clock offset would be applied.
    DryMemoryOffset { offset_mhz: i32 },
    /// The memory clock offset was applied.
    MemoryOffsetSet { offset_mhz: i32 },
    /// Dry run: the power limit would be set to `watts`, which is what
    /// `percentage` resolves to on this device.
    DryPowerLimit { percentage: u32, watts: u32 },
    /// The power limit was set to `watts`, requested as `percentage`.
    PowerLimitSet { percentage: u32, watts: u32 },
    /// Dry run: every setting would be restored to its default.
    DryReset,
    /// A reset step was attempted and failed.
    ResetStepFailed { step: ResetStep, cause: NvmlError },
    /// A reset step was not attempted because the step it depends on failed.
    ResetStepSkipped { step: ResetStep },
    /// The graphics offset may still be in force; it can be cleared by hand
    /// by applying an offset of zero.
    GraphicsOffsetHint,
    /// Every reset step succeeded.
    ResetDone,
    /// The reset ran to its end, but not every step succeeded.
    ResetIncomplete,
}

impl Notice {
    /// Whether the notice tells of something that went wrong.
    pub open spec fn warns(self) -> bool {
        self is ResetStepFailed || self is ResetStepSkipped || self is GraphicsOffsetHint
            || self is ResetIncomplete
    }

    /// Whether the notice tells of something that went wrong, and so belongs
    /// on the error stream.
    pub fn is_warning(&self) -> (warning: bool)
        ensures
            warning == self.warns(),
    {
        match self {
            Notice::ResetStepFailed { .. }
            | Notice::ResetStepSkipped { .. }
            | Notice::GraphicsOffsetHint
            | Notice::ResetIncomplete => true,
            _ => false,
        }
    }
}

} // verus!
