//! The two gates in front of every change to a device: the process must be
//! privileged, and the device must be of the supported generation.
//!
//! Reading the state of a device needs no privilege, but it is still held to
//! the second gate.

use vstd::prelude::*;
use crate::nvml::error::NvmlError;
use crate::nvml::types::{architecture_of, GpuArchitecture};
use crate::text::uppercase_of;

verus! {

/// What the architecture gate says of a device name that was read, or of
/// the failure to read it.
pub open spec fn architecture_gate(device_name: Result<Seq<char>, NvmlError>) -> Result<
    (),
    NvmlError,
> {
    match device_name {
        Err(cause) => Err(cause),
        Ok(name) => if architecture_of(uppercase_of(name)) is Blackwell {
            Ok(())
        } else {
            Err(NvmlError::NotSupported)
        },
    }
}

/// Admits a device of the supported generation and no other.
pub fn validate_architecture(architecture: GpuArchitecture) -> (admitted: Result<(), NvmlError>)
    ensures
        admitted == (if architecture is Blackwell {
            Ok::<(), NvmlError>(())
        } else {
            Err::<(), NvmlError>(NvmlError::NotSupported)
        }),
{
    match architecture {
        GpuArchitecture::Blackwell => Ok(()),
        GpuArchitecture::Unknown => Err(NvmlError::NotSupported),
    }
}

/// Admits the device if its name could be read and is that of a Blackwell
/// card. A name that could not be read fails with the cause of that; any
/// other name fails as not supported.
pub fn validate_blackwell_architecture(device_name: Result<&str, NvmlError>) -> (admitted: Result<
    (),
    NvmlError,
>)
    ensures
        admitted == architecture_gate(
            match device_name {
                Ok(name) => Ok::<Seq<char>, NvmlError>(name@),
                Err(cause) => Err::<Seq<char>, NvmlError>(cause),
            },
        ),
{
    match device_name {
        Err(cause) => Err(cause),
        Ok(name) => validate_architecture(GpuArchitecture::from_device_name(name)),
    }
}

/// Admits a process that runs as the superuser: user id zero. Every other
/// user id fails for lack of permission.
pub fn check_system_for_modification(uid: u32) -> (admitted: Result<(), NvmlError>)
    ensures
        admitted == (if uid == 0 {
            Ok::<(), NvmlError>(())
        } else {
            Err::<(), NvmlError>(NvmlError::NoPermission)
        }),
{
    if uid != 0 {
        return Err(NvmlError::NoPermission);
    }
    Ok(())
}

} // verus!
