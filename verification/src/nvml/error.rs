//! Failures of the vendor library, by kind.

use vstd::prelude::*;
use vstd::string::*;
use crate::text::{append_decimal, decimal_of};
use crate::nvml::types::NvmlReturn;

verus! {

/// What went wrong in a vendor call.
#[derive(Debug, Copy, Clone, PartialEq, Eq, Structural)]
pub enum NvmlError {
    /// The library was not initialized.
    Uninitialized,
    /// An argument was invalid.
    InvalidArgument,
    /// The device does not support the operation.
    NotSupported,
    /// The caller lacks the permission.
    NoPermission,
    /// The library was already initialized.
    AlreadyInitialized,
    /// The device or resource was not found.
    NotFound,
    /// A buffer was too small.
    InsufficientSize,
    /// The device lacks the power for the operation.
    InsufficientPower,
    /// The NVIDIA driver is not loaded.
    DriverNotLoaded,
    /// The operation timed out.
    Timeout,
    /// An interrupt problem was detected.
    IrqIssue,
    /// The vendor library could not be found.
    LibraryNotFound,
    /// The library lacks a required function.
    FunctionNotFound,
    /// The device's `InfoROM` is corrupted.
    CorruptedInforom,
    /// The device fell off the bus.
    GpuIsLost,
    /// The device must be reset first.
    ResetRequired,
    /// The operating system reported an error.
    OperatingSystem,
    /// Library and driver versions differ.
    LibRmVersionMismatch,
    /// The resource is in use.
    InUse,
    /// Memory could not be allocated.
    Memory,
    /// No data is available.
    NoData,
    /// vGPU ECC is not supported.
    VgpuEccNotSupported,
    /// Resources are insufficient.
    InsufficientResources,
    /// The frequency is not supported.
    FreqNotSupported,
    /// The argument's layout version is not understood.
    ArgumentVersionMismatch,
    /// The function is deprecated.
    Deprecated,
    /// The system is not ready.
    NotReady,
    /// A status code without a kind of its own.
    Unknown(u32),
}

/// The kind of failure a status code stands for. Every code has one: codes
/// 1 to 27 each have their own kind, every other code is `Unknown` and keeps
/// its number.
pub open spec fn classify(code: NvmlReturn) -> NvmlError {
    match code {
        1 => NvmlError::Uninitialized,
        2 => NvmlError::InvalidArgument,
        3 => NvmlError::NotSupported,
        4 => NvmlError::NoPermission,
        5 => NvmlError::AlreadyInitialized,
        6 => NvmlError::NotFound,
        7 => NvmlError::InsufficientSize,
        8 => NvmlError::InsufficientPower,
        9 => NvmlError::DriverNotLoaded,
        10 => NvmlError::Timeout,
        11 => NvmlError::IrqIssue,
        12 => NvmlError::LibraryNotFound,
        13 => NvmlError::FunctionNotFound,
        14 => NvmlError::CorruptedInforom,
        15 => NvmlError::GpuIsLost,
        16 => NvmlError::ResetRequired,
        17 => NvmlError::OperatingSystem,
        18 => NvmlError::LibRmVersionMismatch,
        19 => NvmlError::InUse,
        20 => NvmlError::Memory,
        21 => NvmlError::NoData,
        22 => NvmlError::VgpuEccNotSupported,
        23 => NvmlError::InsufficientResources,
        24 => NvmlError::FreqNotSupported,
        25 => NvmlError::ArgumentVersionMismatch,
        26 => NvmlError::Deprecated,
        27 => NvmlError::NotReady,
        _ => NvmlError::Unknown(code),
    }
}

impl NvmlError {
    /// The kind of failure that `code` stands for.
    #[must_use]
    pub fn from_nvml_return(code: NvmlReturn) -> (kind: Self)
        ensures
            kind == classify(code),
    {
        match code {
            1 => Self::Uninitialized,
            2 => Self::InvalidArgument,
            3 => Self::NotSupported,
            4 => Self::NoPermission,
            5 => Self::AlreadyInitialized,
            6 => Self::NotFound,
            7 => Self::InsufficientSize,
            8 => Self::InsufficientPower,
            9 => Self::DriverNotLoaded,
            10 => Self::Timeout,
            11 => Self::IrqIssue,
            12 => Self::LibraryNotFound,
            13 => Self::FunctionNotFound,
            14 => Self::CorruptedInforom,
            15 => Self::GpuIsLost,
            16 => Self::ResetRequired,
            17 => Self::OperatingSystem,
            18 => Self::LibRmVersionMismatch,
            19 => Self::InUse,
            20 => Self::Memory,
            21 => Self::NoData,
            22 => Self::VgpuEccNotSupported,
            23 => Self::InsufficientResources,
            24 => Self::FreqNotSupported,
            25 => Self::ArgumentVersionMismatch,
            26 => Self::Deprecated,
            27 => Self::NotReady,
            code => Self::Unknown(code),
        }
    }
}

impl NvmlError {
    /// Whether a fix is known for this kind of failure.
    pub open spec fn has_known_fix(self) -> bool {
        self is NoPermission || self is DriverNotLoaded || self is LibraryNotFound
            || self is NotSupported || self is NotFound || self is LibRmVersionMismatch
    }

    /// Text of [`NvmlError::user_message`].
    pub open spec fn user_text(self) -> Seq<char> {
        match self {
            NvmlError::Uninitialized => "NVML library not initialized"@,
            NvmlError::InvalidArgument => "Invalid argument provided"@,
            NvmlError::NotSupported => "Operation not supported by this GPU"@,
            NvmlError::NoPermission => "Not root"@,
            NvmlError::AlreadyInitialized => "NVML library already initialized"@,
            NvmlError::NotFound => "GPU device not found"@,
            NvmlError::InsufficientSize => "Buffer size too small"@,
            NvmlError::InsufficientPower => "Insufficient power for operation"@,
            NvmlError::DriverNotLoaded => "NVIDIA driver not loaded"@,
            NvmlError::Timeout => "Operation timed out"@,
            NvmlError::IrqIssue => "Hardware interrupt issue"@,
            NvmlError::LibraryNotFound => "NVML library not found"@,
            NvmlError::FunctionNotFound => "Required function not available"@,
            NvmlError::CorruptedInforom => "GPU `InfoROM` corrupted"@,
            NvmlError::GpuIsLost => "GPU is lost and requires reset"@,
            NvmlError::ResetRequired => "GPU reset required"@,
            NvmlError::OperatingSystem => "Operating system error"@,
            NvmlError::LibRmVersionMismatch => "Driver version mismatch"@,
            NvmlError::InUse => "Resource currently in use"@,
            NvmlError::Memory => "Memory allocation failed"@,
            NvmlError::NoData => "No data available"@,
            NvmlError::VgpuEccNotSupported => "vGPU ECC not supported"@,
            NvmlError::InsufficientResources => "Insufficient system resources"@,
            NvmlError::FreqNotSupported => "Frequency not supported"@,
            NvmlError::ArgumentVersionMismatch => "API version mismatch"@,
            NvmlError::Deprecated => "Function deprecated"@,
            NvmlError::NotReady => "System not ready"@,
            NvmlError::Unknown(_) => "Unknown NVML error"@,
        }
    }

    /// Text of [`NvmlError::actionable_message`]: the remedy where one is
    /// known, the terse message otherwise.
    pub open spec fn actionable_text(self) -> Seq<char> {
        match self {
            NvmlError::NoPermission => "Insufficient permissions. Run with root privileges:\n  sudo nvoc <your-options>"@,
            NvmlError::DriverNotLoaded => "NVIDIA driver not loaded. Install nvidia-open drivers and nvidia-utils package"@,
            NvmlError::LibraryNotFound => "NVML library not found. Install nvidia-utils package"@,
            NvmlError::NotSupported => "Operation not supported by this GPU. Check if:\n  1. GPU supports overclocking\n  2. Coolbits are properly configured"@,
            NvmlError::NotFound => "GPU device not found. Check available devices:\n  nvidia-smi -L"@,
            NvmlError::LibRmVersionMismatch => "Driver version mismatch. Update packages:\n  sudo pacman -Syu"@,
            _ => self.user_text(),
        }
    }

    /// One terse line that names the failure.
    pub fn user_message(&self) -> (message: &'static str)
        ensures
            message@ == self.user_text(),
    {
        match self {
            Self::Uninitialized => "NVML library not initialized",
            Self::InvalidArgument => "Invalid argument provided",
            Self::NotSupported => "Operation not supported by this GPU",
            Self::NoPermission => "Not root",
            Self::AlreadyInitialized => "NVML library already initialized",
            Self::NotFound => "GPU device not found",
            Self::InsufficientSize => "Buffer size too small",
            Self::InsufficientPower => "Insufficient power for operation",
            Self::DriverNotLoaded => "NVIDIA driver not loaded",
            Self::Timeout => "Operation timed out",
            Self::IrqIssue => "Hardware interrupt issue",
            Self::LibraryNotFound => "NVML library not found",
            Self::FunctionNotFound => "Required function not available",
            Self::CorruptedInforom => "GPU `InfoROM` corrupted",
            Self::GpuIsLost => "GPU is lost and requires reset",
            Self::ResetRequired => "GPU reset required",
            Self::OperatingSystem => "Operating system error",
            Self::LibRmVersionMismatch => "Driver version mismatch",
            Self::InUse => "Resource currently in use",
            Self::Memory => "Memory allocation failed",
            Self::NoData => "No data available",
            Self::VgpuEccNotSupported => "vGPU ECC not supported",
            Self::InsufficientResources => "Insufficient system resources",
            Self::FreqNotSupported => "Frequency not supported",
            Self::ArgumentVersionMismatch => "API version mismatch",
            Self::Deprecated => "Function deprecated",
            Self::NotReady => "System not ready",
            Self::Unknown(_) => "Unknown NVML error",
        }
    }

    /// What the user can do about the failure, for the kinds with a known
    /// fix; for every other kind, the terse line of
    /// [`NvmlError::user_message`].
    pub fn actionable_message(&self) -> (message: &'static str)
        ensures
            message@ == self.actionable_text(),
            !self.has_known_fix() ==> message@ == self.user_text(),
    {
        match self {
            Self::NoPermission => "Insufficient permissions. Run with root privileges:\n  sudo nvoc <your-options>",
            Self::DriverNotLoaded => "NVIDIA driver not loaded. Install nvidia-open drivers and nvidia-utils package",
            Self::LibraryNotFound => "NVML library not found. Install nvidia-utils package",
            Self::NotSupported => "Operation not supported by this GPU. Check if:\n  1. GPU supports overclocking\n  2. Coolbits are properly configured",
            Self::NotFound => "GPU device not found. Check available devices:\n  nvidia-smi -L",
            Self::LibRmVersionMismatch => "Driver version mismatch. Update packages:\n  sudo pacman -Syu",
            _ => self.user_message(),
        }
    }
}

impl NvmlError {
    /// Text of [`NvmlError::describe`]: the terse message, followed for an
    /// unknown kind by its status code.
    pub open spec fn text(self) -> Seq<char> {
        match self {
            NvmlError::Unknown(code) => "Unknown NVML error (code: "@ + decimal_of(code as nat)
                + ")"@,
            _ => self.user_text(),
        }
    }

    /// The failure in words.
    pub fn describe(&self) -> (text: String)
        ensures
            text@ == self.text(),
    {
        match self {
            Self::Unknown(code) => {
                let mut text = String::from_str("Unknown NVML error (code: ");
                append_decimal(&mut text, *code);
                text.append(")");
                text
            },
            _ => String::from_str(self.user_message()),
        }
    }
}

} // verus!
