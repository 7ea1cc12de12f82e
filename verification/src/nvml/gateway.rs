//! The calls that can be asked of the vendor library, and what comes back.
//!
//! This crate never makes a call itself. An orchestrator names the call it
//! needs next as a [`GatewayCall`]; whoever drives it performs the call on the
//! selected device and hands back a [`CallOutcome`].

use vstd::prelude::*;
use crate::nvml::error::{classify, NvmlError};
use crate::nvml::types::{NvmlClockOffset, NvmlClockType, NvmlReturn, NVML_SUCCESS};

verus! {

/// One call on the vendor library. Calls that concern a device are made on
/// the device selected for the run.
#[derive(Debug, Clone, Copy, PartialEq, Eq, Structural)]
pub enum GatewayCall {
    /// Bring the library up.
    Init,
    /// Tear the library down.
    Shutdown,
    /// Read the driver version as text.
    SystemGetDriverVersion,
    /// Count the devices.
    DeviceGetCount,
    /// Select the device at `index`.
    DeviceGetHandleByIndex { index: u32 },
    /// Read the device name as text.
    DeviceGetName,
    /// Read the current clock of one domain, in MHz.
    DeviceGetClockInfo { clock_type: NvmlClockType },
    /// Read the clock offset of one domain.
    DeviceGetClockOffsets { clock_type: NvmlClockType },
    /// Apply a clock offset.
    DeviceSetClockOffset { request: NvmlClockOffset },
    /// Apply an offset to the memory voltage-frequency curve, in MHz.
    DeviceSetMemoryVfOffset { offset: i32 },
    /// Pin the graphics clock to `[min_gpu_clock, max_gpu_clock]` MHz.
    DeviceSetGpuLockedClocks { min_gpu_clock: u32, max_gpu_clock: u32 },
    /// Release the graphics clock.
    DeviceResetGpuLockedClocks,
    /// Release the memory clock.
    DeviceResetMemoryLockedClocks,
    /// Read the die temperature, in degrees Celsius.
    DeviceGetTemperature,
    /// Read the present power draw, in milliwatts.
    DeviceGetPowerUsage,
    /// Read the smallest and largest accepted power limit, in milliwatts.
    DeviceGetPowerLimitConstraints,
    /// Read the power limit in force, in milliwatts.
    DeviceGetPowerLimit,
    /// Read the power limit the device ships with, in milliwatts.
    DeviceGetPowerDefaultLimit,
    /// Set the power limit, in milliwatts.
    DeviceSetPowerLimit { limit_mw: u32 },
}

impl GatewayCall {
    /// Whether the call changes a setting of the device.
    pub open spec fn writes(self) -> bool {
        self is DeviceSetClockOffset || self is DeviceSetMemoryVfOffset
            || self is DeviceSetGpuLockedClocks || self is DeviceResetGpuLockedClocks
            || self is DeviceResetMemoryLockedClocks || self is DeviceSetPowerLimit
    }

    /// Whether the call changes a setting of the device.
    pub fn is_write(&self) -> (write: bool)
        ensures
            write == self.writes(),
    {
        match self {
            GatewayCall::DeviceSetClockOffset { .. }
            | GatewayCall::DeviceSetMemoryVfOffset { .. }
            | GatewayCall::DeviceSetGpuLockedClocks { .. }
            | GatewayCall::DeviceResetGpuLockedClocks
            | GatewayCall::DeviceResetMemoryLockedClocks
            | GatewayCall::DeviceSetPowerLimit { .. } => true,
            _ => false,
        }
    }
}

/// What came of one call: its status and whatever it wrote to its numeric
/// output parameters. An output the call does not have is left at zero.
#[derive(Debug, Clone, Copy, PartialEq, Eq)]
pub struct CallOutcome {
    /// The status code the call returned, or why it could not be made at all.
    pub status: Result<NvmlReturn, NvmlError>,
    /// First numeric output.
    pub value: u32,
    /// Second numeric output.
    pub second: u32,
    /// Signed numeric output.
    pub offset: i32,
}

impl CallOutcome {
    /// The outcome of a call that returned `status` and wrote nothing.
    pub fn returned(status: NvmlReturn) -> (outcome: Self)
        ensures
            outcome == (CallOutcome { status: Ok(status), value: 0, second: 0, offset: 0 }),
    {
        CallOutcome { status: Ok(status), value: 0, second: 0, offset: 0 }
    }

    /// The outcome of a call that could not be made because of `fault`.
    pub fn unavailable(fault: NvmlError) -> (outcome: Self)
        ensures
            outcome == (CallOutcome { status: Err(fault), value: 0, second: 0, offset: 0 }),
    {
        CallOutcome { status: Err(fault), value: 0, second: 0, offset: 0 }
    }

    /// The outcome of a call that succeeded and wrote nothing.
    pub fn success() -> (outcome: Self)
        ensures
            outcome == (CallOutcome { status: Ok(NVML_SUCCESS), value: 0, second: 0, offset: 0 }),
            outcome.succeeded(),
    {
        CallOutcome { status: Ok(NVML_SUCCESS), value: 0, second: 0, offset: 0 }
    }

    /// The outcome of a call that succeeded and wrote `value`.
    pub fn with_value(value: u32) -> (outcome: Self)
        ensures
            outcome == (CallOutcome { status: Ok(NVML_SUCCESS), value, second: 0, offset: 0 }),
            outcome.succeeded(),
    {
        CallOutcome { status: Ok(NVML_SUCCESS), value, second: 0, offset: 0 }
    }

    /// The outcome of a call that succeeded and wrote `value` and `second`.
    pub fn with_range(value: u32, second: u32) -> (outcome: Self)
        ensures
            outcome == (CallOutcome { status: Ok(NVML_SUCCESS), value, second, offset: 0 }),
            outcome.succeeded(),
    {
        CallOutcome { status: Ok(NVML_SUCCESS), value, second, offset: 0 }
    }

    /// The outcome of a call that succeeded and wrote the signed `offset`.
    pub fn with_offset(offset: i32) -> (outcome: Self)
        ensures
            outcome == (CallOutcome { status: Ok(NVML_SUCCESS), value: 0, second: 0, offset }),
            outcome.succeeded(),
    {
        CallOutcome { status: Ok(NVML_SUCCESS), value: 0, second: 0, offset }
    }

    /// The failure this outcome reports, if it reports one: the fault that
    /// kept the call from being made, or the kind that a status other than
    /// success stands for.
    pub open spec fn failure(self) -> Option<NvmlError> {
        match self.status {
            Err(fault) => Some(fault),
            Ok(code) => if code == NVML_SUCCESS { None } else { Some(classify(code)) },
        }
    }

    /// Whether the call succeeded.
    pub open spec fn succeeded(self) -> bool {
        self.failure() is None
    }

    /// Success, or the failure this outcome reports.
    pub fn check(&self) -> (checked: Result<(), NvmlError>)
        ensures
            checked == (match self.failure() {
                Some(kind) => Err::<(), NvmlError>(kind),
                None => Ok(()),
            }),
    {
        match self.status {
            Err(fault) => Err(fault),
            Ok(code) => if code == NVML_SUCCESS {
                Ok(())
            } else {
                Err(NvmlError::from_nvml_return(code))
            },
        }
    }

    /// The first numeric output of a successful call.
    pub fn reading(&self) -> (reading: Result<u32, NvmlError>)
        ensures
            reading == (match self.failure() {
                Some(kind) => Err::<u32, NvmlError>(kind),
                None => Ok(self.value),
            }),
    {
        match self.check() {
            Ok(()) => Ok(self.value),
            Err(kind) => Err(kind),
        }
    }

    /// The signed output of a successful call.
    pub fn signed_reading(&self) -> (reading: Result<i32, NvmlError>)
        ensures
            reading == (match self.failure() {
                Some(kind) => Err::<i32, NvmlError>(kind),
                None => Ok(self.offset),
            }),
    {
        match self.check() {
            Ok(()) => Ok(self.offset),
            Err(kind) => Err(kind),
        }
    }

    /// Both numeric outputs of a successful call.
    pub fn range(&self) -> (range: Result<(u32, u32), NvmlError>)
        ensures
            range == (match self.failure() {
                Some(kind) => Err::<(u32, u32), NvmlError>(kind),
                None => Ok((self.value, self.second)),
            }),
    {
        match self.check() {
            Ok(()) => Ok((self.value, self.second)),
            Err(kind) => Err(kind),
        }
    }
}

} // verus!
