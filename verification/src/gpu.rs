//! Device-level operations.

use vstd::prelude::*;
use crate::constants::hardware;
use crate::nvml::error::NvmlError;
use crate::text::{chars_of, decimal_u32, parse_u32};

pub mod domain;
pub mod info;
pub mod notice;
pub mod overclock;
pub mod reset;
pub mod validation;

verus! {

/// Whether the major part of a version ends at `at`: that is where its
/// first dot stands, or where the text ends if it has no dot.
pub open spec fn major_ends_at(version: Seq<char>, at: int) -> bool {
    &&& 0 <= at <= version.len()
    &&& at < version.len() ==> version[at] == '.'
    &&& forall|earlier: int| 0 <= earlier < at ==> version[earlier] != '.'
}

/// The major version number that a driver version such as `560.35.03`
/// begins with, if it begins with a number.
pub open spec fn driver_major(version: Seq<char>) -> Option<u32> {
    let at = choose|at: int| major_ends_at(version, at);
    decimal_u32(version.subrange(0, at))
}

/// What to make of the version a driver reports.
#[derive(Debug, Clone, Copy, PartialEq, Eq, Structural)]
pub enum DriverVerdict {
    /// The major version is the oldest supported one or newer.
    Accepted,
    /// The major version is older than the oldest supported one.
    TooOld,
    /// The version does not begin with a number. Such a driver is let
    /// through: it is not known to be too old.
    Unrecognized,
}

/// What to make of a driver that reports `version`.
pub open spec fn driver_verdict(version: Seq<char>) -> DriverVerdict {
    match driver_major(version) {
        None => DriverVerdict::Unrecognized,
        Some(major) => if major < hardware::MIN_DRIVER_VERSION {
            DriverVerdict::TooOld
        } else {
            DriverVerdict::Accepted
        },
    }
}

/// The major version number that `version` begins with.
pub fn driver_major_version(version: &str) -> (major: Option<u32>)
    ensures
        major == driver_major(version@),
{
    let chars = chars_of(version);
    let mut at: usize = 0;
    while at < chars.len() && chars[at] != '.'
        invariant
            at <= chars@.len(),
            forall|earlier: int| 0 <= earlier < at ==> chars@[earlier] != '.',
        decreases chars@.len() - at,
    {
        at += 1;
    }
    assert(major_ends_at(chars@, at as int));
    let ghost chosen = choose|at: int| major_ends_at(chars@, at);
    assert(chosen == at) by {
        if chosen < at {
            assert(chars@[chosen] != '.');
        }
    }
    parse_u32(&chars, 0, at)
}

/// Judges the version a driver reports, once the library is up.
pub fn init_nvml(driver_version: &str) -> (verdict: DriverVerdict)
    ensures
        verdict == driver_verdict(driver_version@),
{
    match driver_major_version(driver_version) {
        None => DriverVerdict::Unrecognized,
        Some(major) => if major < hardware::MIN_DRIVER_VERSION {
            DriverVerdict::TooOld
        } else {
            DriverVerdict::Accepted
        },
    }
}

/// Admits `device_index` if the machine has that many devices: the index
/// must be below `device_count`.
pub fn get_device(device_index: u32, device_count: u32) -> (admitted: Result<u32, NvmlError>)
    ensures
        admitted == (if device_index < device_count {
            Ok::<u32, NvmlError>(device_index)
        } else {
            Err::<u32, NvmlError>(NvmlError::InvalidArgument)
        }),
{
    if device_index >= device_count {
        return Err(NvmlError::InvalidArgument);
    }
    Ok(device_index)
}

} // verus!
