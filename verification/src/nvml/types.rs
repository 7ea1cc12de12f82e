//! Values exchanged with the vendor library.

use vstd::prelude::*;
use vstd::string::*;
use crate::constants::{buffers, errors};
use crate::text::{chars_of, contains, occurs_in, uppercase_of};

verus! {

/// Status code returned by every vendor call.
pub type NvmlReturn = u32;

pub const NVML_SUCCESS: NvmlReturn = 0;
pub const NVML_ERROR_UNINITIALIZED: NvmlReturn = 1;
pub const NVML_ERROR_INVALID_ARGUMENT: NvmlReturn = 2;
pub const NVML_ERROR_NOT_SUPPORTED: NvmlReturn = 3;
pub const NVML_ERROR_NO_PERMISSION: NvmlReturn = 4;
pub const NVML_ERROR_ALREADY_INITIALIZED: NvmlReturn = 5;
pub const NVML_ERROR_NOT_FOUND: NvmlReturn = 6;
pub const NVML_ERROR_INSUFFICIENT_SIZE: NvmlReturn = 7;
pub const NVML_ERROR_INSUFFICIENT_POWER: NvmlReturn = 8;
pub const NVML_ERROR_DRIVER_NOT_LOADED: NvmlReturn = 9;
pub const NVML_ERROR_TIMEOUT: NvmlReturn = 10;
pub const NVML_ERROR_IRQ_ISSUE: NvmlReturn = 11;
pub const NVML_ERROR_LIBRARY_NOT_FOUND: NvmlReturn = 12;
pub const NVML_ERROR_FUNCTION_NOT_FOUND: NvmlReturn = 13;
pub const NVML_ERROR_CORRUPTED_INFOROM: NvmlReturn = 14;
pub const NVML_ERROR_GPU_IS_LOST: NvmlReturn = 15;
pub const NVML_ERROR_RESET_REQUIRED: NvmlReturn = 16;
pub const NVML_ERROR_OPERATING_SYSTEM: NvmlReturn = 17;
pub const NVML_ERROR_LIB_RM_VERSION_MISMATCH: NvmlReturn = 18;
pub const NVML_ERROR_IN_USE: NvmlReturn = 19;
pub const NVML_ERROR_MEMORY: NvmlReturn = 20;
pub const NVML_ERROR_NO_DATA: NvmlReturn = 21;
pub const NVML_ERROR_VGPU_ECC_NOT_SUPPORTED: NvmlReturn = 22;
pub const NVML_ERROR_INSUFFICIENT_RESOURCES: NvmlReturn = 23;
pub const NVML_ERROR_FREQ_NOT_SUPPORTED: NvmlReturn = 24;
pub const NVML_ERROR_ARGUMENT_VERSION_MISMATCH: NvmlReturn = 25;
pub const NVML_ERROR_DEPRECATED: NvmlReturn = 26;
pub const NVML_ERROR_NOT_READY: NvmlReturn = 27;
pub const NVML_ERROR_UNKNOWN: NvmlReturn = errors::NVML_UNKNOWN_ERROR_CODE;

/// Bytes reserved for a device name.
pub const NVML_DEVICE_NAME_BUFFER_SIZE: usize = buffers::DEVICE_NAME_BUFFER_SIZE;

/// Layout version of [`NvmlClockOffset`] understood by Blackwell drivers.
pub const NVML_CLOCK_OFFSET_V1: u32 = 0x1000018;

/// Clock domain of a device.
#[derive(Debug, Copy, Clone, PartialEq, Eq, Structural)]
pub enum NvmlClockType {
    Graphics,
    Memory,
}

impl NvmlClockType {
    /// Number by which the vendor library knows this clock domain.
    pub open spec fn code_spec(self) -> u32 {
        match self {
            NvmlClockType::Graphics => 0,
            NvmlClockType::Memory => 2,
        }
    }

    /// Number by which the vendor library knows this clock domain.
    pub fn code(&self) -> (code: u32)
        ensures
            code == self.code_spec(),
    {
        match self {
            NvmlClockType::Graphics => 0,
            NvmlClockType::Memory => 2,
        }
    }
}

impl NvmlClockType {
    /// Text of [`NvmlClockType::name`].
    pub open spec fn name_text(self) -> Seq<char> {
        match self {
            NvmlClockType::Graphics => "Graphics"@,
            NvmlClockType::Memory => "Memory"@,
        }
    }

    /// What the clock domain is called.
    pub fn name(&self) -> (name: &'static str)
        ensures
            name@ == self.name_text(),
    {
        match self {
            NvmlClockType::Graphics => "Graphics",
            NvmlClockType::Memory => "Memory",
        }
    }
}

impl Default for NvmlClockType {
    fn default() -> (kind: Self)
        ensures
            kind == NvmlClockType::Graphics,
    {
        NvmlClockType::Graphics
    }
}

/// Performance state an offset applies to.
#[derive(Debug, Copy, Clone, PartialEq, Eq, Structural)]
pub enum NvmlPerfState {
    /// Maximum performance.
    P0,
}

impl NvmlPerfState {
    /// Number by which the vendor library knows this performance state.
    pub fn code(&self) -> (code: u32)
        ensures
            code == 0,
    {
        0
    }
}

impl NvmlPerfState {
    /// What the performance state is called.
    pub fn name(&self) -> (name: &'static str)
        ensures
            name@ == "P0"@,
    {
        match self {
            NvmlPerfState::P0 => "P0",
        }
    }
}

impl Default for NvmlPerfState {
    fn default() -> (state: Self)
        ensures
            state == NvmlPerfState::P0,
    {
        NvmlPerfState::P0
    }
}

/// On/off switch as the vendor library encodes it.
#[derive(Debug, Copy, Clone, PartialEq, Eq, Structural)]
pub enum NvmlEnableState {
    Disabled,
}

impl Default for NvmlEnableState {
    fn default() -> (state: Self)
        ensures
            state == NvmlEnableState::Disabled,
    {
        NvmlEnableState::Disabled
    }
}

/// A clock offset request or reading, in the first layout version.
#[derive(Debug, Copy, Clone, PartialEq, Eq, Structural)]
#[allow(non_snake_case)]
pub struct NvmlClockOffset {
    pub version: u32,
    pub type_: NvmlClockType,
    pub pstate: NvmlPerfState,
    /// Offset in MHz.
    pub clockOffsetMHz: i32,
    /// Smallest offset the device accepts, in MHz; filled in by a reading.
    pub minClockOffsetMHz: i32,
    /// Largest offset the device accepts, in MHz; filled in by a reading.
    pub maxClockOffsetMHz: i32,
}

impl NvmlClockOffset {
    /// An offset of `offset` MHz for `clock_type` at `pstate`, with the bounds
    /// left at zero for the device to fill in.
    pub fn new_v1(clock_type: NvmlClockType, pstate: NvmlPerfState, offset: i32) -> (request: Self)
        ensures
            request == (NvmlClockOffset {
                version: NVML_CLOCK_OFFSET_V1,
                type_: clock_type,
                pstate,
                clockOffsetMHz: offset,
                minClockOffsetMHz: 0,
                maxClockOffsetMHz: 0,
            }),
    {
        NvmlClockOffset {
            version: NVML_CLOCK_OFFSET_V1,
            type_: clock_type,
            pstate,
            clockOffsetMHz: offset,
            minClockOffsetMHz: 0,
            maxClockOffsetMHz: 0,
        }
    }
}

impl Default for NvmlClockOffset {
    fn default() -> (request: Self)
        ensures
            request == (NvmlClockOffset {
                version: NVML_CLOCK_OFFSET_V1,
                type_: NvmlClockType::Graphics,
                pstate: NvmlPerfState::P0,
                clockOffsetMHz: 0,
                minClockOffsetMHz: 0,
                maxClockOffsetMHz: 0,
            }),
    {
        Self::new_v1(NvmlClockType::Graphics, NvmlPerfState::P0, 0)
    }
}

/// Hardware generation of a device, as far as this crate tells them apart.
#[derive(Debug, Clone, Copy, PartialEq, Eq, Structural)]
pub enum GpuArchitecture {
    /// RTX 50-series: the generation this crate tunes.
    Blackwell,
    /// Anything else.
    Unknown,
}

/// Whether a device name, already in upper case, holds one of the markers of
/// the RTX 50-series.
pub open spec fn names_blackwell(upper: Seq<char>) -> bool {
    ||| occurs_in("RTX 50"@, upper)
    ||| occurs_in("5090"@, upper)
    ||| occurs_in("5080"@, upper)
    ||| occurs_in("5070"@, upper)
    ||| occurs_in("5060"@, upper)
}

/// The generation that a device name, already in upper case, stands for.
pub open spec fn architecture_of(upper: Seq<char>) -> GpuArchitecture {
    if names_blackwell(upper) {
        GpuArchitecture::Blackwell
    } else {
        GpuArchitecture::Unknown
    }
}

impl GpuArchitecture {
    /// The generation of the device called `name`. Letter case in `name`
    /// does not matter: the markers are looked for in its upper-case form.
    pub fn from_device_name(name: &str) -> (architecture: Self)
        ensures
            architecture == architecture_of(uppercase_of(name@)),
    {
        let name_upper = name.to_uppercase();
        Self::from_uppercase_name(name_upper.as_str())
    }

    /// The generation of the device whose name in upper case is `upper`:
    /// Blackwell if and only if a marker of the RTX 50-series stands
    /// somewhere in it.
    pub fn from_uppercase_name(upper: &str) -> (architecture: Self)
        ensures
            architecture == architecture_of(upper@),
    {
        let name = chars_of(upper);
        if contains(&name, &chars_of("RTX 50")) || contains(&name, &chars_of("5090")) || contains(
            &name,
            &chars_of("5080"),
        ) || contains(&name, &chars_of("5070")) || contains(&name, &chars_of("5060")) {
            GpuArchitecture::Blackwell
        } else {
            GpuArchitecture::Unknown
        }
    }

    /// Layout version of the clock offset structure to use with a device of
    /// this generation. The first version serves both.
    pub fn get_clock_offset_version(&self) -> (version: u32)
        ensures
            version == NVML_CLOCK_OFFSET_V1,
    {
        match self {
            GpuArchitecture::Blackwell => NVML_CLOCK_OFFSET_V1,
            GpuArchitecture::Unknown => NVML_CLOCK_OFFSET_V1,
        }
    }
}

} // verus!
