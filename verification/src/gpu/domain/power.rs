//! Power limits: watts, milliwatts and percentages of the default limit.
//!
//! All arithmetic is exact integer arithmetic. A quotient keeps its whole
//! part; a result too large for `u32` is held at `u32::MAX`.

use vstd::prelude::*;
use crate::constants::{hardware, power};
use crate::nvml::error::NvmlError;
use crate::nvml::gateway::{CallOutcome, GatewayCall};

verus! {

/// Power limits of a device at one moment, in watts.
#[derive(Debug, Clone, Copy, PartialEq, Eq, Structural)]
pub struct PowerInfo {
    /// Limit currently in force.
    pub limit_watts: u32,
    /// Limit the device ships with; this is what 100% means.
    pub default_watts: u32,
    /// Smallest limit the device accepts.
    pub min_watts: u32,
    /// Largest limit the device accepts.
    pub max_watts: u32,
}

/// `value`, or `u32::MAX` where `value` is larger than that.
pub open spec fn saturate(value: int) -> int {
    if value > u32::MAX { u32::MAX as int } else { value }
}

/// `limit` as a percentage of `default`, whole part only. Against a default of
/// zero a positive limit is beyond every percentage and a zero limit is 0%.
pub open spec fn percentage_of(limit: int, default: int) -> int {
    if default == 0 {
        if limit == 0 { 0 } else { u32::MAX as int }
    } else {
        saturate(limit * 100 / default)
    }
}

/// `percentage` percent of `default`, whole watts only.
pub open spec fn watts_at(default: int, percentage: int) -> int {
    saturate(default * percentage / 100)
}

/// `target` moved into `[min, max]`: raised to `min` first, then cut at `max`.
pub open spec fn clamp_watts(target: int, min: int, max: int) -> int {
    let raised = if target < min { min } else { target };
    if raised > max { max } else { raised }
}

impl PowerInfo {
    /// Whether the accepted range is a range: its lower end is not above its
    /// upper end.
    pub open spec fn well_formed(self) -> bool {
        self.min_watts <= self.max_watts
    }

    /// The wattage that `percentage` resolves to on this device.
    pub open spec fn effective_watts(self, percentage: u32) -> int {
        clamp_watts(
            watts_at(self.default_watts as int, percentage as int),
            self.min_watts as int,
            self.max_watts as int,
        )
    }

    /// The limit in force as a percentage of the default limit.
    pub fn current_percentage(&self) -> (percentage: u32)
        ensures
            percentage == percentage_of(self.limit_watts as int, self.default_watts as int),
    {
        if self.default_watts == 0 {
            if self.limit_watts == 0 { 0 } else { u32::MAX }
        } else {
            assert(self.limit_watts as int * power::POWER_PRECISION as int <= u64::MAX)
                by (nonlinear_arith)
                requires
                    0 <= self.limit_watts as int <= 0xffff_ffff,
                    0 <= power::POWER_PRECISION as int <= 0xffff_ffff,
            ;
            let scaled: u64 = self.limit_watts as u64 * power::POWER_PRECISION as u64;
            let whole: u64 = scaled / self.default_watts as u64;
            if whole > u32::MAX as u64 { u32::MAX } else { whole as u32 }
        }
    }

    /// `percentage` percent of the default limit, before any clamping.
    pub fn calculate_watts_from_percentage(&self, percentage: u32) -> (watts: u32)
        ensures
            watts == watts_at(self.default_watts as int, percentage as int),
    {
        assert(self.default_watts as int * percentage as int <= u64::MAX) by (nonlinear_arith)
            requires
                0 <= self.default_watts as int <= 0xffff_ffff,
                0 <= percentage as int <= 0xffff_ffff,
        ;
        let scaled: u64 = self.default_watts as u64 * percentage as u64;
        let whole: u64 = scaled / power::POWER_PRECISION as u64;
        if whole > u32::MAX as u64 { u32::MAX } else { whole as u32 }
    }

    /// The wattage that would be set for `percentage`: that share of the
    /// default limit, moved into the range the device accepts. No percentage
    /// is refused; the range is the only guard.
    pub fn effective_watts_from_percentage(&self, percentage: u32) -> (watts: u32)
        ensures
            watts == self.effective_watts(percentage),
            watts <= self.max_watts,
            self.well_formed() ==> self.min_watts <= watts,
    {
        let target_watts = self.calculate_watts_from_percentage(percentage);
        let raised = if target_watts < self.min_watts { self.min_watts } else { target_watts };
        if raised > self.max_watts { self.max_watts } else { raised }
    }
}

/// Whole watts in `milliwatts`; the fraction is dropped, never rounded up.
#[inline]
pub fn mw_to_w(milliwatts: u32) -> (watts: u32)
    ensures
        watts == milliwatts / 1000,
{
    milliwatts / hardware::MILLIWATTS_TO_WATTS
}

/// `watts` in milliwatts.
#[inline]
pub fn w_to_mw(watts: u32) -> (milliwatts: u32)
    requires
        watts * 1000 <= u32::MAX,
    ensures
        milliwatts == watts * 1000,
{
    watts * hardware::MILLIWATTS_TO_WATTS
}

/// Converting to watts truncates: the watts are the most whole watts that
/// do not exceed the milliwatts, so less than one watt is lost and nothing
/// is gained.
pub proof fn lemma_mw_to_w_truncates(milliwatts: u32)
    ensures
        (milliwatts / 1000) * 1000 <= milliwatts < (milliwatts / 1000) * 1000 + 1000,
{
}

/// The share of the default limit grows with the percentage.
pub proof fn lemma_watts_at_monotonic(default: int, low: int, high: int)
    requires
        0 <= default,
        0 <= low <= high,
    ensures
        watts_at(default, low) <= watts_at(default, high),
{
    assert(default * low <= default * high) by (nonlinear_arith)
        requires
            0 <= default,
            low <= high,
    ;
}

/// The effective wattage never decreases as the percentage grows.
pub proof fn lemma_effective_watts_monotonic(info: PowerInfo, low: u32, high: u32)
    requires
        low <= high,
    ensures
        info.effective_watts(low) <= info.effective_watts(high),
{
    lemma_watts_at_monotonic(info.default_watts as int, low as int, high as int);
}

/// Whatever the percentage, zero or far beyond 100, the effective wattage
/// lies within the range the device accepts.
pub proof fn lemma_effective_watts_in_range(info: PowerInfo, percentage: u32)
    requires
        info.well_formed(),
    ensures
        info.min_watts <= info.effective_watts(percentage) <= info.max_watts,
{
}

/// A limit equal to a positive default is exactly 100%.
pub proof fn lemma_default_is_hundred_percent(default: u32)
    requires
        default > 0,
    ensures
        percentage_of(default as int, default as int) == 100,
{
    assert(default as int * 100 / default as int == 100) by (nonlinear_arith)
        requires
            default > 0,
    ;
}

/// Half of an even, positive default is exactly 50%.
pub proof fn lemma_half_default_is_fifty_percent(default: u32)
    requires
        default > 0,
        default % 2 == 0,
    ensures
        percentage_of(default as int / 2, default as int) == 50,
{
    let half = default as int / 2;
    assert(half * 100 / (default as int) == 50) by (nonlinear_arith)
        requires
            half > 0,
            default as int == 2 * half,
    ;
}

/// Reading the power limits of a device: three calls, in this order, for the
/// limit in force, the default limit, and the accepted range. The first call
/// that fails ends the reading; the calls after it are not made.
#[derive(Debug, Clone, Copy, PartialEq, Eq, Structural)]
pub enum PowerQuery {
    /// Waiting on the limit in force.
    Limit,
    /// Waiting on the default limit.
    Default { limit_mw: u32 },
    /// Waiting on the accepted range.
    Constraints { limit_mw: u32, default_mw: u32 },
}

/// Where a reading of the power limits stands after one more call.
#[derive(Debug, Clone, Copy, PartialEq, Eq, Structural)]
pub enum PowerAnswer {
    /// Another call is needed.
    More(PowerQuery),
    /// All three calls succeeded.
    Info(PowerInfo),
    /// A call failed.
    Failed(NvmlError),
}

impl PowerQuery {
    /// The call a reading is waiting on.
    pub open spec fn call(self) -> GatewayCall {
        match self {
            PowerQuery::Limit => GatewayCall::DeviceGetPowerLimit,
            PowerQuery::Default { .. } => GatewayCall::DeviceGetPowerDefaultLimit,
            PowerQuery::Constraints { .. } => GatewayCall::DeviceGetPowerLimitConstraints,
        }
    }

    /// Where the reading stands once the call it was waiting on has ended as
    /// `outcome` says. The values read are milliwatts; the limits that result
    /// are whole watts.
    pub open spec fn after(self, outcome: CallOutcome) -> PowerAnswer {
        match outcome.failure() {
            Some(cause) => PowerAnswer::Failed(cause),
            None => match self {
                PowerQuery::Limit => PowerAnswer::More(
                    PowerQuery::Default { limit_mw: outcome.value },
                ),
                PowerQuery::Default { limit_mw } => PowerAnswer::More(
                    PowerQuery::Constraints { limit_mw, default_mw: outcome.value },
                ),
                PowerQuery::Constraints { limit_mw, default_mw } => PowerAnswer::Info(
                    PowerInfo {
                        limit_watts: (limit_mw / 1000) as u32,
                        default_watts: (default_mw / 1000) as u32,
                        min_watts: (outcome.value / 1000) as u32,
                        max_watts: (outcome.second / 1000) as u32,
                    },
                ),
            },
        }
    }

    /// The call to make next.
    pub fn pending(&self) -> (call: GatewayCall)
        ensures
            call == self.call(),
            !call.writes(),
    {
        match self {
            PowerQuery::Limit => GatewayCall::DeviceGetPowerLimit,
            PowerQuery::Default { .. } => GatewayCall::DeviceGetPowerDefaultLimit,
            PowerQuery::Constraints { .. } => GatewayCall::DeviceGetPowerLimitConstraints,
        }
    }

    /// Takes in what came of the pending call.
    pub fn advance(self, outcome: CallOutcome) -> (answer: PowerAnswer)
        ensures
            answer == self.after(outcome),
            answer matches PowerAnswer::Info(info) ==> info.max_watts * 1000 <= u32::MAX,
    {
        match self {
            PowerQuery::Limit => match outcome.reading() {
                Ok(limit_mw) => PowerAnswer::More(PowerQuery::Default { limit_mw }),
                Err(cause) => PowerAnswer::Failed(cause),
            },
            PowerQuery::Default { limit_mw } => match outcome.reading() {
                Ok(default_mw) => PowerAnswer::More(PowerQuery::Constraints { limit_mw, default_mw }),
                Err(cause) => PowerAnswer::Failed(cause),
            },
            PowerQuery::Constraints { limit_mw, default_mw } => match outcome.range() {
                Ok((min_mw, max_mw)) => PowerAnswer::Info(
                    PowerInfo {
                        limit_watts: mw_to_w(limit_mw),
                        default_watts: mw_to_w(default_mw),
                        min_watts: mw_to_w(min_mw),
                        max_watts: mw_to_w(max_mw),
                    },
                ),
                Err(cause) => PowerAnswer::Failed(cause),
            },
        }
    }
}

/// Begins a reading of the power limits.
pub fn get_power_info() -> (query: PowerQuery)
    ensures
        query == PowerQuery::Limit,
{
    PowerQuery::Limit
}

/// Where a task of several calls stands after one more call.
#[derive(Debug, Clone, Copy, PartialEq, Eq)]
pub enum Progress<Task> {
    /// Another call is needed.
    More(Task),
    /// The last call succeeded.
    Done,
    /// A call failed; no call was made after it.
    Failed(NvmlError),
}

/// Setting the power limit to a percentage of the default limit: the limits
/// are read afresh, the percentage is resolved against them, and the
/// resulting wattage is written as milliwatts with one call. Whichever call
/// fails, its failure is the failure of the whole, and nothing is written
/// after it.
#[derive(Debug, Clone, Copy, PartialEq, Eq, Structural)]
pub enum PowerSetting {
    /// Reading the limits.
    Reading { percentage: u32, query: PowerQuery },
    /// Writing the limit.
    Writing { limit_mw: u32 },
}

impl PowerSetting {
    /// The call the task is waiting on.
    pub open spec fn call(self) -> GatewayCall {
        match self {
            PowerSetting::Reading { query, .. } => query.call(),
            PowerSetting::Writing { limit_mw } => GatewayCall::DeviceSetPowerLimit { limit_mw },
        }
    }

    /// Where the task stands once the call it was waiting on has ended as
    /// `outcome` says. What is written is the effective wattage for the
    /// percentage, which lies within the range just read, in milliwatts.
    pub open spec fn after(self, outcome: CallOutcome) -> Progress<PowerSetting> {
        match outcome.failure() {
            Some(cause) => Progress::Failed(cause),
            None => match self {
                PowerSetting::Reading { percentage, query } => match query.after(outcome) {
                    PowerAnswer::More(query) => Progress::More(
                        PowerSetting::Reading { percentage, query },
                    ),
                    PowerAnswer::Info(info) => Progress::More(
                        PowerSetting::Writing {
                            limit_mw: (info.effective_watts(percentage) * 1000) as u32,
                        },
                    ),
                    PowerAnswer::Failed(cause) => Progress::Failed(cause),
                },
                PowerSetting::Writing { .. } => Progress::Done,
            },
        }
    }

    /// The call to make next.
    pub fn pending(&self) -> (call: GatewayCall)
        ensures
            call == self.call(),
            call.writes() <==> self is Writing,
    {
        match self {
            PowerSetting::Reading { query, .. } => query.pending(),
            PowerSetting::Writing { limit_mw } => GatewayCall::DeviceSetPowerLimit {
                limit_mw: *limit_mw,
            },
        }
    }

    /// Takes in what came of the pending call.
    pub fn advance(self, outcome: CallOutcome) -> (progress: Progress<PowerSetting>)
        ensures
            progress == self.after(outcome),
    {
        match self {
            PowerSetting::Reading { percentage, query } => match query.advance(outcome) {
                PowerAnswer::More(query) => Progress::More(
                    PowerSetting::Reading { percentage, query },
                ),
                PowerAnswer::Info(info) => {
                    let target_watts = info.effective_watts_from_percentage(percentage);
                    assert(target_watts * 1000 <= u32::MAX) by (nonlinear_arith)
                        requires
                            target_watts <= info.max_watts,
                            info.max_watts * 1000 <= u32::MAX,
                    ;
                    Progress::More(PowerSetting::Writing { limit_mw: w_to_mw(target_watts) })
                },
                PowerAnswer::Failed(cause) => Progress::Failed(cause),
            },
            PowerSetting::Writing { .. } => match outcome.check() {
                Ok(()) => Progress::Done,
                Err(cause) => Progress::Failed(cause),
            },
        }
    }
}

/// Begins setting the power limit to `percentage` percent of the default
/// limit.
pub fn set_power_limit_percentage(percentage: u32) -> (task: PowerSetting)
    ensures
        task == (PowerSetting::Reading { percentage, query: PowerQuery::Limit }),
{
    PowerSetting::Reading { percentage, query: get_power_info() }
}

/// The limit that is written lies within the range the device has just
/// reported, as long as that range is one: its lower end not above its upper
/// end. It is a whole number of watts.
pub proof fn lemma_written_limit_within_range(
    percentage: u32,
    limit_mw: u32,
    default_mw: u32,
    outcome: CallOutcome,
)
    requires
        outcome.succeeded(),
        outcome.value <= outcome.second,
    ensures
        ({
            let task = PowerSetting::Reading {
                percentage,
                query: PowerQuery::Constraints { limit_mw, default_mw },
            };
            &&& task.after(outcome) matches Progress::More(PowerSetting::Writing { limit_mw })
            &&& (outcome.value / 1000) * 1000 <= limit_mw <= outcome.second
            &&& limit_mw % 1000 == 0
        }),
{
    let info = PowerInfo {
        limit_watts: (limit_mw / 1000) as u32,
        default_watts: (default_mw / 1000) as u32,
        min_watts: (outcome.value / 1000) as u32,
        max_watts: (outcome.second / 1000) as u32,
    };
    let target = info.effective_watts(percentage);
    assert(info.min_watts <= target <= info.max_watts);
}

/// Restoring the default power limit: the default is read and written back
/// as it was read. If it cannot be read, nothing is written.
#[derive(Debug, Clone, Copy, PartialEq, Eq, Structural)]
pub enum PowerRestore {
    /// Reading the default limit.
    Reading,
    /// Writing it back.
    Writing { default_mw: u32 },
}

impl PowerRestore {
    /// The call the task is waiting on.
    pub open spec fn call(self) -> GatewayCall {
        match self {
            PowerRestore::Reading => GatewayCall::DeviceGetPowerDefaultLimit,
            PowerRestore::Writing { default_mw } => GatewayCall::DeviceSetPowerLimit {
                limit_mw: default_mw,
            },
        }
    }

    /// Where the task stands once the call it was waiting on has ended as
    /// `outcome` says.
    pub open spec fn after(self, outcome: CallOutcome) -> Progress<PowerRestore> {
        match outcome.failure() {
            Some(cause) => Progress::Failed(cause),
            None => match self {
                PowerRestore::Reading => Progress::More(
                    PowerRestore::Writing { default_mw: outcome.value },
                ),
                PowerRestore::Writing { .. } => Progress::Done,
            },
        }
    }

    /// The call to make next.
    pub fn pending(&self) -> (call: GatewayCall)
        ensures
            call == self.call(),
    {
        match self {
            PowerRestore::Reading => GatewayCall::DeviceGetPowerDefaultLimit,
            PowerRestore::Writing { default_mw } => GatewayCall::DeviceSetPowerLimit {
                limit_mw: *default_mw,
            },
        }
    }

    /// Takes in what came of the pending call.
    pub fn advance(self, outcome: CallOutcome) -> (progress: Progress<PowerRestore>)
        ensures
            progress == self.after(outcome),
    {
        match self {
            PowerRestore::Reading => match outcome.reading() {
                Ok(default_mw) => Progress::More(PowerRestore::Writing { default_mw }),
                Err(cause) => Progress::Failed(cause),
            },
            PowerRestore::Writing { .. } => match outcome.check() {
                Ok(()) => Progress::Done,
                Err(cause) => Progress::Failed(cause),
            },
        }
    }
}

/// Begins restoring the default power limit.
pub fn reset_power_limit() -> (task: PowerRestore)
    ensures
        task == PowerRestore::Reading,
{
    PowerRestore::Reading
}

/// The present power draw in whole watts, from what came of the call that
/// reads it in milliwatts.
pub fn get_power_usage_watts(outcome: CallOutcome) -> (watts: Result<u32, NvmlError>)
    ensures
        watts == (match outcome.failure() {
            Some(cause) => Err::<u32, NvmlError>(cause),
            None => Ok((outcome.value / 1000) as u32),
        }),
{
    match outcome.reading() {
        Ok(power_mw) => Ok(mw_to_w(power_mw)),
        Err(cause) => Err(cause),
    }
}

} // verus!
