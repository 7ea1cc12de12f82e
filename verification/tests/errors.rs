use nvoc::error::{exit_status, AppError};
use nvoc::nvml::gateway::CallOutcome;
use nvoc::nvml::NvmlError;

#[test]
fn every_known_code_has_its_kind() {
    let kinds = [
        NvmlError::Uninitialized,
        NvmlError::InvalidArgument,
        NvmlError::NotSupported,
        NvmlError::NoPermission,
        NvmlError::AlreadyInitialized,
        NvmlError::NotFound,
        NvmlError::InsufficientSize,
        NvmlError::InsufficientPower,
        NvmlError::DriverNotLoaded,
        NvmlError::Timeout,
        NvmlError::IrqIssue,
        NvmlError::LibraryNotFound,
        NvmlError::FunctionNotFound,
        NvmlError::CorruptedInforom,
        NvmlError::GpuIsLost,
        NvmlError::ResetRequired,
        NvmlError::OperatingSystem,
        NvmlError::LibRmVersionMismatch,
        NvmlError::InUse,
        NvmlError::Memory,
        NvmlError::NoData,
        NvmlError::VgpuEccNotSupported,
        NvmlError::InsufficientResources,
        NvmlError::FreqNotSupported,
        NvmlError::ArgumentVersionMismatch,
        NvmlError::Deprecated,
        NvmlError::NotReady,
    ];
    for (i, kind) in kinds.iter().enumerate() {
        assert_eq!(NvmlError::from_nvml_return(i as u32 + 1), *kind);
    }
}

#[test]
fn other_codes_are_unknown_and_keep_their_number() {
    assert_eq!(NvmlError::from_nvml_return(999), NvmlError::Unknown(999));
    assert_eq!(NvmlError::from_nvml_return(28), NvmlError::Unknown(28));
    assert_eq!(NvmlError::from_nvml_return(0), NvmlError::Unknown(0));
    assert_eq!(NvmlError::from_nvml_return(u32::MAX), NvmlError::Unknown(u32::MAX));
}

#[test]
fn terse_messages() {
    assert_eq!(NvmlError::Uninitialized.user_message(), "NVML library not initialized");
    assert_eq!(NvmlError::InvalidArgument.user_message(), "Invalid argument provided");
    assert_eq!(NvmlError::NotSupported.user_message(), "Operation not supported by this GPU");
    assert_eq!(NvmlError::NoPermission.user_message(), "Not root");
    assert_eq!(NvmlError::AlreadyInitialized.user_message(), "NVML library already initialized");
    assert_eq!(NvmlError::NotFound.user_message(), "GPU device not found");
    assert_eq!(NvmlError::InsufficientSize.user_message(), "Buffer size too small");
    assert_eq!(NvmlError::InsufficientPower.user_message(), "Insufficient power for operation");
    assert_eq!(NvmlError::DriverNotLoaded.user_message(), "NVIDIA driver not loaded");
    assert_eq!(NvmlError::Timeout.user_message(), "Operation timed out");
    assert_eq!(NvmlError::IrqIssue.user_message(), "Hardware interrupt issue");
    assert_eq!(NvmlError::LibraryNotFound.user_message(), "NVML library not found");
    assert_eq!(NvmlError::FunctionNotFound.user_message(), "Required function not available");
    assert_eq!(NvmlError::CorruptedInforom.user_message(), "GPU `InfoROM` corrupted");
    assert_eq!(NvmlError::GpuIsLost.user_message(), "GPU is lost and requires reset");
    assert_eq!(NvmlError::ResetRequired.user_message(), "GPU reset required");
    assert_eq!(NvmlError::OperatingSystem.user_message(), "Operating system error");
    assert_eq!(NvmlError::LibRmVersionMismatch.user_message(), "Driver version mismatch");
    assert_eq!(NvmlError::InUse.user_message(), "Resource currently in use");
    assert_eq!(NvmlError::Memory.user_message(), "Memory allocation failed");
    assert_eq!(NvmlError::NoData.user_message(), "No data available");
    assert_eq!(NvmlError::VgpuEccNotSupported.user_message(), "vGPU ECC not supported");
    assert_eq!(NvmlError::InsufficientResources.user_message(), "Insufficient system resources");
    assert_eq!(NvmlError::FreqNotSupported.user_message(), "Frequency not supported");
    assert_eq!(NvmlError::ArgumentVersionMismatch.user_message(), "API version mismatch");
    assert_eq!(NvmlError::Deprecated.user_message(), "Function deprecated");
    assert_eq!(NvmlError::NotReady.user_message(), "System not ready");
    assert_eq!(NvmlError::Unknown(5).user_message(), "Unknown NVML error");
}

#[test]
fn remedies_for_the_kinds_with_a_known_fix() {
    assert_eq!(
        NvmlError::NoPermission.actionable_message(),
        "Insufficient permissions. Run with root privileges:\n  sudo nvoc <your-options>"
    );
    assert_eq!(
        NvmlError::DriverNotLoaded.actionable_message(),
        "NVIDIA driver not loaded. Install nvidia-open drivers and nvidia-utils package"
    );
    assert_eq!(
        NvmlError::LibraryNotFound.actionable_message(),
        "NVML library not found. Install nvidia-utils package"
    );
    assert_eq!(
        NvmlError::NotSupported.actionable_message(),
        "Operation not supported by this GPU. Check if:\n  1. GPU supports overclocking\n  2. Coolbits are properly configured"
    );
    assert_eq!(
        NvmlError::NotFound.actionable_message(),
        "GPU device not found. Check available devices:\n  nvidia-smi -L"
    );
    assert_eq!(
        NvmlError::LibRmVersionMismatch.actionable_message(),
        "Driver version mismatch. Update packages:\n  sudo pacman -Syu"
    );
}

#[test]
fn other_kinds_fall_back_to_the_terse_message() {
    for kind in [
        NvmlError::Uninitialized,
        NvmlError::InvalidArgument,
        NvmlError::Timeout,
        NvmlError::GpuIsLost,
        NvmlError::FunctionNotFound,
        NvmlError::NotReady,
        NvmlError::Unknown(999),
    ] {
        assert_eq!(kind.actionable_message(), kind.user_message());
    }
}

#[test]
fn text_of_an_error() {
    assert_eq!(NvmlError::Timeout.describe(), "Operation timed out");
    assert_eq!(NvmlError::Unknown(999).describe(), "Unknown NVML error (code: 999)");
    assert_eq!(NvmlError::Unknown(0).describe(), "Unknown NVML error (code: 0)");
    assert_eq!(
        NvmlError::Unknown(u32::MAX).describe(),
        "Unknown NVML error (code: 4294967295)"
    );
}

#[test]
fn the_three_ways_to_make_an_error() {
    let vendor = AppError::new("clocks", NvmlError::NoPermission);
    assert_eq!(vendor.domain, "clocks");
    assert_eq!(vendor.source, Some(NvmlError::NoPermission));
    assert_eq!(vendor.message, None);
    assert!(!vendor.printed);

    let own = AppError::msg("cli", "No operation specified.".to_string());
    assert_eq!(own.domain, "cli");
    assert_eq!(own.source, None);
    assert_eq!(own.message, Some("No operation specified.".to_string()));
    assert!(!own.printed);

    let shown = AppError::printed("reset");
    assert_eq!(shown.domain, "reset");
    assert_eq!(shown.source, None);
    assert_eq!(shown.message, None);
    assert!(shown.printed);
}

#[test]
fn line_of_an_error() {
    assert_eq!(
        AppError::new("power-limit", NvmlError::Timeout).describe(),
        "error[power-limit]: Operation timed out"
    );
    assert_eq!(
        AppError::new("nvoc", NvmlError::NoPermission).describe(),
        "error[nvoc]: Insufficient permissions. Run with root privileges:\n  sudo nvoc <your-options>"
    );
    assert_eq!(
        AppError::msg("cli", "No operation specified.".to_string()).describe(),
        "error[cli]: No operation specified."
    );
    assert_eq!(AppError::printed("reset").describe(), "error[reset]");
}

#[test]
fn an_error_already_shown_is_not_shown_again_but_still_fails_the_run() {
    let shown = AppError::printed("reset");
    assert_eq!(shown.report(), None);
    assert_eq!(exit_status(&Err(shown)), 1);

    let fresh = AppError::new("device", NvmlError::InvalidArgument);
    assert_eq!(fresh.report(), Some("error[device]: Invalid argument provided".to_string()));
    assert_eq!(exit_status(&Err(fresh)), 1);

    assert_eq!(exit_status(&Ok(())), 0);
}

#[test]
fn outcome_of_a_call() {
    assert_eq!(CallOutcome::success().check(), Ok(()));
    assert_eq!(CallOutcome::returned(0).check(), Ok(()));
    assert_eq!(CallOutcome::returned(4).check(), Err(NvmlError::NoPermission));
    assert_eq!(CallOutcome::returned(1234).check(), Err(NvmlError::Unknown(1234)));
    assert_eq!(
        CallOutcome::unavailable(NvmlError::LibraryNotFound).check(),
        Err(NvmlError::LibraryNotFound)
    );
    assert_eq!(CallOutcome::with_value(7).reading(), Ok(7));
    assert_eq!(CallOutcome::with_range(3, 9).range(), Ok((3, 9)));
    assert_eq!(CallOutcome::with_offset(-40).signed_reading(), Ok(-40));
    let failed = CallOutcome { status: Ok(3), value: 7, second: 9, offset: -1 };
    assert_eq!(failed.reading(), Err(NvmlError::NotSupported));
    assert_eq!(failed.range(), Err(NvmlError::NotSupported));
    assert_eq!(failed.signed_reading(), Err(NvmlError::NotSupported));
}
