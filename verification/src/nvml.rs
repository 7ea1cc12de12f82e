//! The vendor management library as this crate sees it: its status codes, the
//! values it exchanges, and the calls that can be asked of it.

pub mod error;
pub mod gateway;
pub mod types;

pub use error::NvmlError;
pub use gateway::{CallOutcome, GatewayCall};
pub use types::{
    GpuArchitecture, NvmlClockOffset, NvmlClockType, NvmlPerfState, NVML_DEVICE_NAME_BUFFER_SIZE,
    NVML_SUCCESS,
};
