//! Reading the state of a device.
//!
//! The name must be readable; without it there is nothing to show. Every
//! other reading is optional: one that fails is left out and the rest are
//! still made.

use vstd::prelude::*;
use vstd::string::*;
use crate::gpu::domain::power::{
    get_power_info, get_power_usage_watts, percentage_of, PowerAnswer, PowerInfo, PowerQuery,
};
use crate::nvml::error::NvmlError;
use crate::nvml::gateway::{CallOutcome, GatewayCall};
use crate::nvml::types::{
    architecture_of, GpuArchitecture, NvmlClockType, NVML_CLOCK_OFFSET_V1,
};
use crate::text::uppercase_of;

verus! {

/// What is known of a device. A reading that could not be made is `None`.
#[derive(Debug, PartialEq, Eq)]
pub struct GpuInfo {
    /// Index of the device.
    pub index: u32,
    /// Name of the device; `None` until it has been read.
    pub name: Option<String>,
    /// Generation the name stands for.
    pub architecture: GpuArchitecture,
    /// Layout version of clock offsets for that generation.
    pub clock_offset_version: u32,
    /// Graphics clock in MHz.
    pub graphics_clock: Option<u32>,
    /// Graphics clock offset in MHz.
    pub graphics_offset: Option<i32>,
    /// Memory clock in MHz.
    pub memory_clock: Option<u32>,
    /// Die temperature in degrees Celsius.
    pub temperature: Option<u32>,
    /// Present power draw in whole watts.
    pub power_watts: Option<u32>,
    /// Power limits in whole watts.
    pub power: Option<PowerInfo>,
}

/// Where a reading of the device state stands.
#[derive(Debug, Clone, Copy, PartialEq, Eq, Structural)]
pub enum InfoStage {
    Name,
    GraphicsClock,
    GraphicsOffset,
    MemoryClock,
    Temperature,
    PowerUsage,
    Power(PowerQuery),
    Finished,
}

impl InfoStage {
    /// The call a stage is waiting on.
    pub open spec fn call(self) -> Option<GatewayCall> {
        match self {
            InfoStage::Name => Some(GatewayCall::DeviceGetName),
            InfoStage::GraphicsClock => Some(
                GatewayCall::DeviceGetClockInfo { clock_type: NvmlClockType::Graphics },
            ),
            InfoStage::GraphicsOffset => Some(
                GatewayCall::DeviceGetClockOffsets { clock_type: NvmlClockType::Graphics },
            ),
            InfoStage::MemoryClock => Some(
                GatewayCall::DeviceGetClockInfo { clock_type: NvmlClockType::Memory },
            ),
            InfoStage::Temperature => Some(GatewayCall::DeviceGetTemperature),
            InfoStage::PowerUsage => Some(GatewayCall::DeviceGetPowerUsage),
            InfoStage::Power(query) => Some(query.call()),
            InfoStage::Finished => None,
        }
    }

    /// The stage that follows once the outstanding call has ended as
    /// `outcome` says. Only a name that cannot be read ends the reading
    /// early.
    pub open spec fn next(self, outcome: CallOutcome) -> InfoStage {
        match self {
            InfoStage::Name => if outcome.succeeded() {
                InfoStage::GraphicsClock
            } else {
                InfoStage::Finished
            },
            InfoStage::GraphicsClock => InfoStage::GraphicsOffset,
            InfoStage::GraphicsOffset => InfoStage::MemoryClock,
            InfoStage::MemoryClock => InfoStage::Temperature,
            InfoStage::Temperature => InfoStage::PowerUsage,
            InfoStage::PowerUsage => InfoStage::Power(PowerQuery::Limit),
            InfoStage::Power(query) => match query.after(outcome) {
                PowerAnswer::More(query) => InfoStage::Power(query),
                _ => InfoStage::Finished,
            },
            InfoStage::Finished => InfoStage::Finished,
        }
    }
}

/// The first numeric output of `outcome` if the call succeeded.
pub open spec fn reading_of(outcome: CallOutcome) -> Option<u32> {
    if outcome.succeeded() { Some(outcome.value) } else { None }
}

/// The state of a reading as contracts see it.
pub struct InfoView {
    pub stage: InfoStage,
    pub report: GpuInfo,
    pub failure: Option<NvmlError>,
}

impl InfoView {
    /// What is known of the device after the outstanding call has ended as
    /// `outcome` says, with `text` as its text output.
    pub open spec fn learned(self, outcome: CallOutcome, text: String) -> GpuInfo {
        let report = self.report;
        match self.stage {
            InfoStage::Name => if outcome.succeeded() {
                GpuInfo {
                    name: Some(text),
                    architecture: architecture_of(uppercase_of(text@)),
                    clock_offset_version: NVML_CLOCK_OFFSET_V1,
                    ..report
                }
            } else {
                report
            },
            InfoStage::GraphicsClock => GpuInfo { graphics_clock: reading_of(outcome), ..report },
            InfoStage::GraphicsOffset => GpuInfo {
                graphics_offset: if outcome.succeeded() { Some(outcome.offset) } else { None },
                ..report
            },
            InfoStage::MemoryClock => GpuInfo { memory_clock: reading_of(outcome), ..report },
            InfoStage::Temperature => GpuInfo { temperature: reading_of(outcome), ..report },
            InfoStage::PowerUsage => GpuInfo {
                power_watts: if outcome.succeeded() {
                    Some((outcome.value / 1000) as u32)
                } else {
                    None
                },
                ..report
            },
            InfoStage::Power(query) => match query.after(outcome) {
                PowerAnswer::Info(info) => GpuInfo { power: Some(info), ..report },
                _ => report,
            },
            InfoStage::Finished => report,
        }
    }

    /// The state a reading for the device at `index` starts in: waiting on
    /// the name, with nothing known yet.
    pub open spec fn started(index: u32) -> InfoView {
        InfoView {
            stage: InfoStage::Name,
            report: GpuInfo {
                index,
                name: None,
                architecture: GpuArchitecture::Unknown,
                clock_offset_version: NVML_CLOCK_OFFSET_V1,
                graphics_clock: None,
                graphics_offset: None,
                memory_clock: None,
                temperature: None,
                power_watts: None,
                power: None,
            },
            failure: None,
        }
    }

    /// The state after the outstanding call has ended as `outcome` says.
    pub open spec fn after(self, outcome: CallOutcome, text: String) -> InfoView {
        InfoView {
            stage: self.stage.next(outcome),
            report: self.learned(outcome, text),
            failure: if self.stage is Name {
                outcome.failure()
            } else {
                self.failure
            },
        }
    }
}

/// A reading of the device state in progress.
#[derive(Debug)]
pub struct InfoQuery {
    stage: InfoStage,
    report: GpuInfo,
    failure: Option<NvmlError>,
}

impl View for InfoQuery {
    type V = InfoView;

    closed spec fn view(&self) -> InfoView {
        InfoView { stage: self.stage, report: self.report, failure: self.failure }
    }
}

/// Begins reading the state of the device at `device_index`.
pub fn show_gpu_info(device_index: u32) -> (query: InfoQuery)
    ensures
        query@ == InfoView::started(device_index),
{
    InfoQuery {
        stage: InfoStage::Name,
        report: GpuInfo {
            index: device_index,
            name: None,
            architecture: GpuArchitecture::Unknown,
            clock_offset_version: NVML_CLOCK_OFFSET_V1,
            graphics_clock: None,
            graphics_offset: None,
            memory_clock: None,
            temperature: None,
            power_watts: None,
            power: None,
        },
        failure: None,
    }
}

/// `Some` of what a successful reading gave, `None` for a failed one.
fn known<T>(reading: Result<T, NvmlError>) -> (value: Option<T>)
    ensures
        value == (match reading {
            Ok(value) => Some(value),
            Err(_) => None::<T>,
        }),
{
    match reading {
        Ok(value) => Some(value),
        Err(_) => None,
    }
}

impl InfoQuery {
    /// The call to make next, or `None` when the reading is over. It is
    /// never a call that writes.
    pub fn pending(&self) -> (call: Option<GatewayCall>)
        ensures
            call == self@.stage.call(),
            call is None <==> self@.stage is Finished,
            call matches Some(call) ==> !call.writes(),
    {
        match self.stage {
            InfoStage::Name => Some(GatewayCall::DeviceGetName),
            InfoStage::GraphicsClock => Some(
                GatewayCall::DeviceGetClockInfo { clock_type: NvmlClockType::Graphics },
            ),
            InfoStage::GraphicsOffset => Some(
                GatewayCall::DeviceGetClockOffsets { clock_type: NvmlClockType::Graphics },
            ),
            InfoStage::MemoryClock => Some(
                GatewayCall::DeviceGetClockInfo { clock_type: NvmlClockType::Memory },
            ),
            InfoStage::Temperature => Some(GatewayCall::DeviceGetTemperature),
            InfoStage::PowerUsage => Some(GatewayCall::DeviceGetPowerUsage),
            InfoStage::Power(query) => Some(query.pending()),
            InfoStage::Finished => None,
        }
    }

    /// Whether the reading is over.
    pub fn finished(&self) -> (over: bool)
        ensures
            over == self@.stage is Finished,
    {
        match self.stage {
            InfoStage::Finished => true,
            _ => false,
        }
    }

    /// Takes in what came of the pending call, with `text` as its text
    /// output, and moves on.
    pub fn advance(self, outcome: CallOutcome, text: String) -> (moved: InfoQuery)
        ensures
            moved@ == self@.after(outcome, text),
    {
        let InfoQuery { stage, report, failure } = self;
        let mut report = report;
        let mut failure = failure;
        let next = match stage {
            InfoStage::Name => match outcome.check() {
                Ok(()) => {
                    let architecture = GpuArchitecture::from_device_name(text.as_str());
                    report.clock_offset_version = architecture.get_clock_offset_version();
                    report.architecture = architecture;
                    report.name = Some(text);
                    failure = None;
                    InfoStage::GraphicsClock
                },
                Err(cause) => {
                    failure = Some(cause);
                    InfoStage::Finished
                },
            },
            InfoStage::GraphicsClock => {
                report.graphics_clock = known(outcome.reading());
                InfoStage::GraphicsOffset
            },
            InfoStage::GraphicsOffset => {
                report.graphics_offset = known(outcome.signed_reading());
                InfoStage::MemoryClock
            },
            InfoStage::MemoryClock => {
                report.memory_clock = known(outcome.reading());
                InfoStage::Temperature
            },
            InfoStage::Temperature => {
                report.temperature = known(outcome.reading());
                InfoStage::PowerUsage
            },
            InfoStage::PowerUsage => {
                report.power_watts = known(get_power_usage_watts(outcome));
                InfoStage::Power(get_power_info())
            },
            InfoStage::Power(query) => match query.advance(outcome) {
                PowerAnswer::More(query) => InfoStage::Power(query),
                PowerAnswer::Info(info) => {
                    report.power = Some(info);
                    InfoStage::Finished
                },
                PowerAnswer::Failed(_) => InfoStage::Finished,
            },
            InfoStage::Finished => InfoStage::Finished,
        };
        InfoQuery { stage: next, report, failure }
    }

    /// Ends the reading and hands out what is known of the device.
    pub fn into_report(self) -> (report: GpuInfo)
        ensures
            report == self@.report,
    {
        self.report
    }

    /// What is known of the device so far.
    pub fn report(&self) -> (report: &GpuInfo)
        ensures
            *report == self@.report,
    {
        &self.report
    }

    /// How the reading ended, or `None` while a call is pending: with the
    /// cause if the name could not be read, well otherwise.
    pub fn result(&self) -> (result: Option<Result<(), NvmlError>>)
        ensures
            result == (if self@.stage is Finished {
                match self@.failure {
                    Some(cause) => Some(Err::<(), NvmlError>(cause)),
                    None => Some(Ok::<(), NvmlError>(())),
                }
            } else {
                None
            }),
    {
        match self.stage {
            InfoStage::Finished => match self.failure {
                Some(cause) => Some(Err(cause)),
                None => Some(Ok(())),
            },
            _ => None,
        }
    }
}

impl GpuInfo {
    /// The power limit in force as a percentage of the default limit, if the
    /// limits could be read.
    pub fn power_percentage(&self) -> (percentage: Option<u32>)
        ensures
            percentage == (match self.power {
                Some(info) => Some(
                    percentage_of(info.limit_watts as int, info.default_watts as int) as u32,
                ),
                None => None::<u32>,
            }),
    {
        match &self.power {
            Some(info) => Some(info.current_percentage()),
            None => None,
        }
    }
}

} // verus!
