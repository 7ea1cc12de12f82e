//! Applying the settings a request names.
//!
//! The sub-operations run in a fixed order, and only those the request names:
//! locked clock range, graphics offset, memory offset, power limit. The order
//! matters because an offset composes with a locked range that is already in
//! force.
//!
//! The first failure ends the run. What was applied before it stays applied;
//! what comes after it is not attempted.
//!
//! In a dry run nothing is written. The clock and offset values that would be
//! written are announced as they are; the power limit is read from the device
//! and the wattage it would be set to is announced.

use vstd::prelude::*;
use crate::cli::Config;
use crate::error::AppError;
use crate::gpu::domain::power::{
    clamp_watts, get_power_info, set_power_limit_percentage, watts_at, PowerAnswer, PowerQuery,
    PowerSetting, Progress,
};
use crate::gpu::notice::Notice;
use crate::nvml::error::NvmlError;
use crate::nvml::gateway::{CallOutcome, GatewayCall};
use crate::nvml::types::{NvmlClockOffset, NvmlClockType, NvmlPerfState, NVML_CLOCK_OFFSET_V1};

verus! {

/// One of the four things a request can name, in the order they are applied.
#[derive(Debug, Clone, Copy, PartialEq, Eq, Structural)]
pub enum OverclockStep {
    Clocks,
    GraphicsOffset,
    MemoryOffset,
    PowerLimit,
}

impl OverclockStep {
    /// The domain a failure of this step is attributed to.
    pub open spec fn domain_tag(self) -> &'static str {
        match self {
            OverclockStep::Clocks => "clocks",
            OverclockStep::GraphicsOffset => "graphics-offset",
            OverclockStep::MemoryOffset => "memory-offset",
            OverclockStep::PowerLimit => "power-limit",
        }
    }

    /// The domain a failure of this step is attributed to.
    pub fn domain(&self) -> (domain: &'static str)
        ensures
            domain == self.domain_tag(),
    {
        match self {
            OverclockStep::Clocks => "clocks",
            OverclockStep::GraphicsOffset => "graphics-offset",
            OverclockStep::MemoryOffset => "memory-offset",
            OverclockStep::PowerLimit => "power-limit",
        }
    }
}

/// Where a run stands: the call it is waiting on, or that it is over.
#[derive(Debug, Clone, Copy, PartialEq, Eq, Structural)]
pub enum OverclockStage {
    /// Locking the graphics clock range.
    Clocks { min_mhz: u32, max_mhz: u32 },
    /// Applying the graphics clock offset.
    GraphicsOffset { offset_mhz: i32 },
    /// Applying the memory clock offset.
    MemoryOffset { offset_mhz: i32 },
    /// Reading the power limits to find the wattage that is announced.
    PowerPreview { percentage: u32, query: PowerQuery },
    /// Setting the power limit. `watts` is what will be announced.
    PowerApply { percentage: u32, watts: u32, setting: PowerSetting },
    /// No call is outstanding.
    Finished,
}

/// What a sub-operation comes to before any call is made for it.
#[derive(Debug, Clone, Copy, PartialEq, Eq, Structural)]
pub enum Planned {
    /// Nothing is to be called; this is to be announced instead.
    Announce(Notice),
    /// The run is to wait in this stage for its call.
    Wait(OverclockStage),
}

impl OverclockStage {
    /// The sub-operation a stage belongs to. `Finished` belongs to none; it
    /// is counted with the last.
    pub open spec fn step(self) -> OverclockStep {
        match self {
            OverclockStage::Clocks { .. } => OverclockStep::Clocks,
            OverclockStage::GraphicsOffset { .. } => OverclockStep::GraphicsOffset,
            OverclockStage::MemoryOffset { .. } => OverclockStep::MemoryOffset,
            _ => OverclockStep::PowerLimit,
        }
    }

    /// The call a stage is waiting on.
    pub open spec fn call(self) -> Option<GatewayCall> {
        match self {
            OverclockStage::Clocks { min_mhz, max_mhz } => Some(
                GatewayCall::DeviceSetGpuLockedClocks {
                    min_gpu_clock: min_mhz,
                    max_gpu_clock: max_mhz,
                },
            ),
            OverclockStage::GraphicsOffset { offset_mhz } => Some(
                GatewayCall::DeviceSetClockOffset {
                    request: NvmlClockOffset {
                        version: NVML_CLOCK_OFFSET_V1,
                        type_: NvmlClockType::Graphics,
                        pstate: NvmlPerfState::P0,
                        clockOffsetMHz: offset_mhz,
                        minClockOffsetMHz: 0,
                        maxClockOffsetMHz: 0,
                    },
                },
            ),
            OverclockStage::MemoryOffset { offset_mhz } => Some(
                GatewayCall::DeviceSetMemoryVfOffset { offset: offset_mhz },
            ),
            OverclockStage::PowerPreview { query, .. } => Some(query.call()),
            OverclockStage::PowerApply { setting, .. } => Some(setting.call()),
            OverclockStage::Finished => None,
        }
    }

    /// Where a run goes, and what the user is told, once the call a stage was
    /// waiting on has succeeded with `outcome`.
    pub open spec fn on_success(self, config: Config, outcome: CallOutcome) -> (
        OverclockStage,
        Seq<Notice>,
    ) {
        match self {
            OverclockStage::Clocks { .. } => {
                let onward = enter(config, 1);
                (onward.0, seq![Notice::ClocksSet] + onward.1)
            },
            OverclockStage::GraphicsOffset { .. } => enter(config, 2),
            OverclockStage::MemoryOffset { offset_mhz } => {
                let onward = enter(config, 3);
                (onward.0, seq![Notice::MemoryOffsetSet { offset_mhz }] + onward.1)
            },
            OverclockStage::PowerPreview { percentage, query } => match query.after(outcome) {
                PowerAnswer::More(query) => (
                    OverclockStage::PowerPreview { percentage, query },
                    Seq::empty(),
                ),
                PowerAnswer::Info(info) => {
                    let watts = info.effective_watts(percentage) as u32;
                    if config.dry_run {
                        (
                            OverclockStage::Finished,
                            seq![Notice::DryPowerLimit { percentage, watts }],
                        )
                    } else {
                        (
                            OverclockStage::PowerApply {
                                percentage,
                                watts,
                                setting: PowerSetting::Reading {
                                    percentage,
                                    query: PowerQuery::Limit,
                                },
                            },
                            Seq::empty(),
                        )
                    }
                },
                PowerAnswer::Failed(_) => (OverclockStage::Finished, Seq::empty()),
            },
            OverclockStage::PowerApply { percentage, watts, setting } => match setting.after(
                outcome,
            ) {
                Progress::More(setting) => (
                    OverclockStage::PowerApply { percentage, watts, setting },
                    Seq::empty(),
                ),
                Progress::Done => (
                    OverclockStage::Finished,
                    seq![Notice::PowerLimitSet { percentage, watts }],
                ),
                Progress::Failed(_) => (OverclockStage::Finished, Seq::empty()),
            },
            OverclockStage::Finished => (OverclockStage::Finished, Seq::empty()),
        }
    }
}

/// What applying a clock range comes to before any call: in a dry run the
/// range is announced, otherwise the run waits for it to be locked.
pub open spec fn clocks_plan(clocks: (u32, u32), dry_run: bool) -> Planned {
    if dry_run {
        Planned::Announce(Notice::DryClocks { min_mhz: clocks.0, max_mhz: clocks.1 })
    } else {
        Planned::Wait(OverclockStage::Clocks { min_mhz: clocks.0, max_mhz: clocks.1 })
    }
}

/// What applying a graphics clock offset comes to before any call.
pub open spec fn graphics_offset_plan(offset: i32, dry_run: bool) -> Planned {
    if dry_run {
        Planned::Announce(Notice::DryGraphicsOffset { offset_mhz: offset })
    } else {
        Planned::Wait(OverclockStage::GraphicsOffset { offset_mhz: offset })
    }
}

/// What applying a memory clock offset comes to before any call.
pub open spec fn memory_offset_plan(offset: i32, dry_run: bool) -> Planned {
    if dry_run {
        Planned::Announce(Notice::DryMemoryOffset { offset_mhz: offset })
    } else {
        Planned::Wait(OverclockStage::MemoryOffset { offset_mhz: offset })
    }
}

/// What applying a power limit comes to before any call. Dry run or not, the
/// run waits to read the power limits: what is announced depends on them.
pub open spec fn power_limit_plan(percentage: u32) -> Planned {
    Planned::Wait(OverclockStage::PowerPreview { percentage, query: PowerQuery::Limit })
}

/// What the sub-operation at `position` comes to before any call, if the
/// request names that sub-operation. Positions count from zero in the order
/// of application.
pub open spec fn planned(config: Config, position: nat) -> Option<Planned> {
    if position == 0 {
        match config.clocks {
            Some(clocks) => Some(clocks_plan(clocks, config.dry_run)),
            None => None,
        }
    } else if position == 1 {
        match config.graphics_offset {
            Some(offset) => Some(graphics_offset_plan(offset, config.dry_run)),
            None => None,
        }
    } else if position == 2 {
        match config.memory_offset {
            Some(offset) => Some(memory_offset_plan(offset, config.dry_run)),
            None => None,
        }
    } else if position == 3 {
        match config.power_limit {
            Some(percentage) => Some(power_limit_plan(percentage)),
            None => None,
        }
    } else {
        None
    }
}

/// Where a run stands, and what the user is told, when it takes up the
/// sub-operations from `position` on.
///
/// Sub-operations the request does not name are passed over, and so are
/// those that are only announced. The run waits in the first one that has a
/// call to make, or is over if there is none.
pub open spec fn enter(config: Config, position: nat) -> (OverclockStage, Seq<Notice>)
    decreases 4 - position,
{
    if position >= 4 {
        (OverclockStage::Finished, Seq::empty())
    } else {
        match planned(config, position) {
            None => enter(config, position + 1),
            Some(Planned::Announce(notice)) => {
                let onward = enter(config, position + 1);
                (onward.0, seq![notice] + onward.1)
            },
            Some(Planned::Wait(stage)) => (stage, Seq::empty()),
        }
    }
}

/// The state of a run as contracts see it.
pub struct OverclockView {
    pub config: Config,
    pub stage: OverclockStage,
    pub failure: Option<(OverclockStep, NvmlError)>,
}

impl OverclockView {
    /// Whether the state is one a run can be in: a dry run waits on nothing
    /// but a reading of the power limits, and a failure is on record only
    /// when the run is over.
    pub open spec fn consistent(self) -> bool {
        &&& self.config.dry_run ==> self.stage is PowerPreview || self.stage is Finished
        &&& self.failure is Some ==> self.stage is Finished
    }

    /// The state after the outstanding call has ended as `outcome` says. A
    /// failure ends the run and goes on record with the sub-operation it
    /// belongs to.
    pub open spec fn after(self, outcome: CallOutcome) -> OverclockView {
        if self.stage is Finished {
            self
        } else {
            match outcome.failure() {
                Some(cause) => OverclockView {
                    config: self.config,
                    stage: OverclockStage::Finished,
                    failure: Some((self.stage.step(), cause)),
                },
                None => OverclockView {
                    config: self.config,
                    stage: self.stage.on_success(self.config, outcome).0,
                    failure: self.failure,
                },
            }
        }
    }

    /// What the user is told when the outstanding call has ended as
    /// `outcome` says. A failure is told by the error the run ends with, not
    /// here.
    pub open spec fn notices(self, outcome: CallOutcome) -> Seq<Notice> {
        if self.stage is Finished || outcome.failure() is Some {
            Seq::empty()
        } else {
            self.stage.on_success(self.config, outcome).1
        }
    }

    /// How the run ended, once it is over.
    pub open spec fn result(self) -> Option<Result<(), AppError>> {
        if self.stage is Finished {
            match self.failure {
                None => Some(Ok(())),
                Some((step, cause)) => Some(
                    Err(
                        AppError {
                            domain: step.domain_tag(),
                            source: Some(cause),
                            message: None,
                            printed: false,
                        },
                    ),
                ),
            }
        } else {
            None
        }
    }
}

/// A run in progress.
#[derive(Debug)]
pub struct Overclock {
    config: Config,
    stage: OverclockStage,
    failure: Option<(OverclockStep, NvmlError)>,
}

impl View for Overclock {
    type V = OverclockView;

    closed spec fn view(&self) -> OverclockView {
        OverclockView { config: self.config, stage: self.stage, failure: self.failure }
    }
}

/// Begins applying the clock range `clocks`: in a dry run it is announced,
/// otherwise the run waits for it to be locked.
pub fn apply_clocks(clocks: (u32, u32), dry_run: bool) -> (plan: Planned)
    ensures
        plan == clocks_plan(clocks, dry_run),
{
    let (min_clock, max_clock) = clocks;
    if dry_run {
        return Planned::Announce(Notice::DryClocks { min_mhz: min_clock, max_mhz: max_clock });
    }
    Planned::Wait(OverclockStage::Clocks { min_mhz: min_clock, max_mhz: max_clock })
}

/// Begins applying the graphics clock offset `offset`: in a dry run it is
/// announced, otherwise the run waits for it to be applied.
pub fn apply_graphics_offset(offset: i32, dry_run: bool) -> (plan: Planned)
    ensures
        plan == graphics_offset_plan(offset, dry_run),
{
    if dry_run {
        return Planned::Announce(Notice::DryGraphicsOffset { offset_mhz: offset });
    }
    Planned::Wait(OverclockStage::GraphicsOffset { offset_mhz: offset })
}

/// Begins applying the memory clock offset `offset`: in a dry run it is
/// announced, otherwise the run waits for it to be applied.
pub fn apply_memory_offset(offset: i32, dry_run: bool) -> (plan: Planned)
    ensures
        plan == memory_offset_plan(offset, dry_run),
{
    if dry_run {
        return Planned::Announce(Notice::DryMemoryOffset { offset_mhz: offset });
    }
    Planned::Wait(OverclockStage::MemoryOffset { offset_mhz: offset })
}

/// Begins applying the power limit `percentage`: the run waits to read the
/// power limits, against which the percentage is resolved.
pub fn apply_power_limit(percentage: u32) -> (plan: Planned)
    ensures
        plan == power_limit_plan(percentage),
{
    Planned::Wait(OverclockStage::PowerPreview { percentage, query: get_power_info() })
}

/// What the sub-operation at `position` comes to before any call, if the
/// request names it.
fn plan(config: &Config, position: u8) -> (plan: Option<Planned>)
    ensures
        plan == planned(*config, position as nat),
{
    if position == 0 {
        match config.clocks {
            Some(clocks) => Some(apply_clocks(clocks, config.dry_run)),
            None => None,
        }
    } else if position == 1 {
        match config.graphics_offset {
            Some(offset) => Some(apply_graphics_offset(offset, config.dry_run)),
            None => None,
        }
    } else if position == 2 {
        match config.memory_offset {
            Some(offset) => Some(apply_memory_offset(offset, config.dry_run)),
            None => None,
        }
    } else if position == 3 {
        match config.power_limit {
            Some(percentage) => Some(apply_power_limit(percentage)),
            None => None,
        }
    } else {
        None
    }
}

/// Takes up the sub-operations from `position` on: appends to `notices` what
/// the user is told and returns the stage the run waits in.
fn take_up(config: &Config, position: u8, notices: &mut Vec<Notice>) -> (stage: OverclockStage)
    requires
        position <= 4,
    ensures
        stage == enter(*config, position as nat).0,
        final(notices)@ == old(notices)@ + enter(*config, position as nat).1,
        config.dry_run ==> stage is PowerPreview || stage is Finished,
    decreases 4 - position,
{
    if position >= 4 {
        return OverclockStage::Finished;
    }
    match plan(config, position) {
        None => take_up(config, position + 1, notices),
        Some(Planned::Announce(notice)) => {
            notices.push(notice);
            let onward = take_up(config, position + 1, notices);
            assert(notices@ =~= old(notices)@ + (seq![notice] + enter(
                *config,
                position as nat + 1,
            ).1));
            onward
        },
        Some(Planned::Wait(stage)) => {
            assert(notices@ =~= old(notices)@ + Seq::<Notice>::empty());
            stage
        },
    }
}

/// Begins applying what `config` names and says what to tell the user first.
///
/// The run waits in the first sub-operation the request names, or is over at
/// once if it names none. In a dry run the clock range and the offsets are
/// announced here and now, and the run waits only to read the power limits.
pub fn apply(config: &Config) -> (started: (Overclock, Vec<Notice>))
    ensures
        started.0@.config == *config,
        started.0@.stage == enter(*config, 0).0,
        started.0@.failure is None,
        started.0@.consistent(),
        started.1@ == enter(*config, 0).1,
{
    let mut notices: Vec<Notice> = Vec::new();
    let stage = take_up(config, 0, &mut notices);
    (Overclock { config: *config, stage, failure: None }, notices)
}

impl Overclock {
    #[verifier::type_invariant]
    spec fn is_consistent(self) -> bool {
        self@.consistent()
    }

    /// The request being applied.
    pub fn config(&self) -> (config: &Config)
        ensures
            *config == self@.config,
    {
        &self.config
    }

    /// The stage the run stands at.
    pub fn stage(&self) -> (stage: OverclockStage)
        ensures
            stage == self@.stage,
            self@.consistent(),
    {
        proof {
            use_type_invariant(self);
        }
        self.stage
    }

    /// The call to make next, or `None` when the run is over. In a dry run
    /// this is never a call that writes.
    pub fn pending(&self) -> (call: Option<GatewayCall>)
        ensures
            call == self@.stage.call(),
            call is None <==> self@.stage is Finished,
            self@.config.dry_run && call is Some ==> !call->Some_0.writes(),
    {
        proof {
            use_type_invariant(self);
        }
        match self.stage {
            OverclockStage::Clocks { min_mhz, max_mhz } => Some(
                GatewayCall::DeviceSetGpuLockedClocks {
                    min_gpu_clock: min_mhz,
                    max_gpu_clock: max_mhz,
                },
            ),
            OverclockStage::GraphicsOffset { offset_mhz } => Some(
                GatewayCall::DeviceSetClockOffset {
                    request: NvmlClockOffset::new_v1(
                        NvmlClockType::Graphics,
                        NvmlPerfState::P0,
                        offset_mhz,
                    ),
                },
            ),
            OverclockStage::MemoryOffset { offset_mhz } => Some(
                GatewayCall::DeviceSetMemoryVfOffset { offset: offset_mhz },
            ),
            OverclockStage::PowerPreview { query, .. } => Some(query.pending()),
            OverclockStage::PowerApply { setting, .. } => Some(setting.pending()),
            OverclockStage::Finished => None,
        }
    }

    /// Whether the run is over.
    pub fn finished(&self) -> (over: bool)
        ensures
            over == self@.stage is Finished,
    {
        match self.stage {
            OverclockStage::Finished => true,
            _ => false,
        }
    }

    /// Takes in what came of the pending call and moves on. Returns the run
    /// in its next state and what to tell the user now.
    ///
    /// Once the run is over, an outcome changes nothing.
    pub fn advance(self, outcome: CallOutcome) -> (moved: (Overclock, Vec<Notice>))
        ensures
            moved.0@ == self@.after(outcome),
            moved.1@ == self@.notices(outcome),
            moved.0@.consistent(),
    {
        proof {
            use_type_invariant(&self);
        }
        let Overclock { config, stage, failure } = self;
        let mut notices: Vec<Notice> = Vec::new();
        if let OverclockStage::Finished = stage {
            return (Overclock { config, stage, failure }, notices);
        }
        if let Err(cause) = outcome.check() {
            let step = step_of(stage);
            return (
                Overclock { config, stage: OverclockStage::Finished, failure: Some((step, cause)) },
                notices,
            );
        }
        let next = match stage {
            OverclockStage::Clocks { .. } => {
                notices.push(Notice::ClocksSet);
                take_up(&config, 1, &mut notices)
            },
            OverclockStage::GraphicsOffset { .. } => take_up(&config, 2, &mut notices),
            OverclockStage::MemoryOffset { offset_mhz } => {
                notices.push(Notice::MemoryOffsetSet { offset_mhz });
                take_up(&config, 3, &mut notices)
            },
            OverclockStage::PowerPreview { percentage, query } => match query.advance(outcome) {
                PowerAnswer::More(query) => OverclockStage::PowerPreview { percentage, query },
                PowerAnswer::Info(info) => {
                    let watts = info.effective_watts_from_percentage(percentage);
                    if config.dry_run {
                        notices.push(Notice::DryPowerLimit { percentage, watts });
                        OverclockStage::Finished
                    } else {
                        OverclockStage::PowerApply {
                            percentage,
                            watts,
                            setting: set_power_limit_percentage(percentage),
                        }
                    }
                },
                PowerAnswer::Failed(_) => OverclockStage::Finished,
            },
            OverclockStage::PowerApply { percentage, watts, setting } => match setting.advance(
                outcome,
            ) {
                Progress::More(setting) => OverclockStage::PowerApply { percentage, watts, setting },
                Progress::Done => {
                    notices.push(Notice::PowerLimitSet { percentage, watts });
                    OverclockStage::Finished
                },
                Progress::Failed(_) => OverclockStage::Finished,
            },
            OverclockStage::Finished => OverclockStage::Finished,
        };
        assert(notices@ =~= stage.on_success(config, outcome).1);
        (Overclock { config, stage: next, failure }, notices)
    }

    /// How the run ended, or `None` while a call is pending.
    ///
    /// A run that failed ends with the vendor failure, attributed to the
    /// sub-operation that was under way. The error is not marked as shown:
    /// the run itself told the user nothing about it.
    pub fn result(&self) -> (result: Option<Result<(), AppError>>)
        ensures
            result == self@.result(),
    {
        match self.stage {
            OverclockStage::Finished => match self.failure {
                None => Some(Ok(())),
                Some((step, cause)) => Some(Err(AppError::new(step.domain(), cause))),
            },
            _ => None,
        }
    }
}

/// The sub-operation `stage` belongs to.
fn step_of(stage: OverclockStage) -> (step: OverclockStep)
    ensures
        step == stage.step(),
{
    match stage {
        OverclockStage::Clocks { .. } => OverclockStep::Clocks,
        OverclockStage::GraphicsOffset { .. } => OverclockStep::GraphicsOffset,
        OverclockStage::MemoryOffset { .. } => OverclockStep::MemoryOffset,
        _ => OverclockStep::PowerLimit,
    }
}

impl OverclockStage {
    /// Position of the sub-operation a stage belongs to, counted from zero in
    /// the order of application; `Finished` comes after all of them.
    pub open spec fn position(self) -> nat {
        match self {
            OverclockStage::Clocks { .. } => 0,
            OverclockStage::GraphicsOffset { .. } => 1,
            OverclockStage::MemoryOffset { .. } => 2,
            OverclockStage::Finished => 4,
            _ => 3,
        }
    }
}

impl OverclockView {
    /// The state a run for `config` starts in.
    pub open spec fn started(config: Config) -> OverclockView {
        OverclockView { config, stage: enter(config, 0).0, failure: None }
    }

    /// The calls that are made, in order, when the outcomes handed back are
    /// `outcomes`, one for each call, for as long as a call is pending.
    pub open spec fn calls(self, outcomes: Seq<CallOutcome>) -> Seq<GatewayCall>
        decreases outcomes.len(),
    {
        if outcomes.len() == 0 || self.stage is Finished {
            Seq::empty()
        } else {
            seq![self.stage.call()->Some_0] + self.after(outcomes[0]).calls(outcomes.drop_first())
        }
    }
}

/// What a dry run announces before it makes any call: the clock range and
/// the two offsets, each if the request names it, in the order in which they
/// would be applied and with the values that would be written.
pub open spec fn dry_announcements(config: Config) -> Seq<Notice> {
    let clocks = match config.clocks {
        Some((min_mhz, max_mhz)) => seq![Notice::DryClocks { min_mhz, max_mhz }],
        None => Seq::empty(),
    };
    let graphics = match config.graphics_offset {
        Some(offset_mhz) => seq![Notice::DryGraphicsOffset { offset_mhz }],
        None => Seq::empty(),
    };
    let memory = match config.memory_offset {
        Some(offset_mhz) => seq![Notice::DryMemoryOffset { offset_mhz }],
        None => Seq::empty(),
    };
    clocks + graphics + memory
}

/// Taking up the sub-operations from some position on never leads back to an
/// earlier one, and in a dry run leads nowhere but to a reading of the power
/// limits or to the end.
pub proof fn lemma_enter_goes_forward(config: Config, position: nat)
    ensures
        enter(config, position).0.position() >= position || enter(config, position).0 is Finished,
        enter(config, position).0 !is PowerApply,
        config.dry_run ==> enter(config, position).0 is PowerPreview || enter(
            config,
            position,
        ).0 is Finished,
    decreases 4 - position,
{
    if position < 4 {
        lemma_enter_goes_forward(config, position + 1);
    }
}

/// A dry run starts by announcing every clock and offset value the request
/// names, and then waits only if the request names a power limit.
pub proof fn lemma_dry_run_announces(config: Config)
    requires
        config.dry_run,
    ensures
        enter(config, 0).1 == dry_announcements(config),
        enter(config, 0).0 == (match config.power_limit {
            Some(percentage) => OverclockStage::PowerPreview {
                percentage,
                query: PowerQuery::Limit,
            },
            None => OverclockStage::Finished,
        }),
{
    reveal_with_fuel(enter, 5);
    assert(enter(config, 0).1 =~= dry_announcements(config));
}

/// Outside a dry run, a run starts in the first sub-operation the request
/// names and tells the user nothing yet.
pub proof fn lemma_run_starts_at_first_named(config: Config)
    requires
        !config.dry_run,
    ensures
        enter(config, 0).1 == Seq::<Notice>::empty(),
        enter(config, 0).0 == (if let Some((min_mhz, max_mhz)) = config.clocks {
            OverclockStage::Clocks { min_mhz, max_mhz }
        } else if let Some(offset_mhz) = config.graphics_offset {
            OverclockStage::GraphicsOffset { offset_mhz }
        } else if let Some(offset_mhz) = config.memory_offset {
            OverclockStage::MemoryOffset { offset_mhz }
        } else if let Some(percentage) = config.power_limit {
            OverclockStage::PowerPreview { percentage, query: PowerQuery::Limit }
        } else {
            OverclockStage::Finished
        }),
{
    reveal_with_fuel(enter, 5);
}

/// A transition leads from one state a run can be in to another.
pub proof fn lemma_overclock_stays_consistent(state: OverclockView, outcome: CallOutcome)
    requires
        state.consistent(),
    ensures
        state.after(outcome).consistent(),
        state.after(outcome).config == state.config,
{
    lemma_enter_goes_forward(state.config, 1);
    lemma_enter_goes_forward(state.config, 2);
    lemma_enter_goes_forward(state.config, 3);
}

/// The sub-operations are taken in their fixed order: no transition leads
/// back to an earlier one.
pub proof fn lemma_overclock_keeps_order(state: OverclockView, outcome: CallOutcome)
    ensures
        state.after(outcome).stage.position() >= state.stage.position(),
{
    lemma_enter_goes_forward(state.config, 1);
    lemma_enter_goes_forward(state.config, 2);
    lemma_enter_goes_forward(state.config, 3);
}

/// The first failure ends the run: it goes on record with the sub-operation
/// that was under way, the user is told nothing more by the run itself, and
/// whatever outcomes might follow, no further call is made.
pub proof fn lemma_failure_ends_run(
    state: OverclockView,
    outcome: CallOutcome,
    later: Seq<CallOutcome>,
)
    requires
        state.stage !is Finished,
        !outcome.succeeded(),
    ensures
        state.after(outcome).stage is Finished,
        state.after(outcome).failure == Some((state.stage.step(), outcome.failure()->Some_0)),
        state.after(outcome).result() == Some(
            Err::<(), AppError>(
                AppError {
                    domain: state.stage.step().domain_tag(),
                    source: outcome.failure(),
                    message: None,
                    printed: false,
                },
            ),
        ),
        state.notices(outcome) == Seq::<Notice>::empty(),
        state.after(outcome).calls(later) == Seq::<GatewayCall>::empty(),
        state.calls(seq![outcome] + later) == seq![state.stage.call()->Some_0],
{
    let outcomes = seq![outcome] + later;
    assert(outcomes[0] == outcome);
    assert(outcomes.drop_first() =~= later);
    let ended = state.after(outcome);
    assert(ended.calls(later) =~= Seq::<GatewayCall>::empty());
    assert(state.calls(outcomes) == seq![state.stage.call()->Some_0] + ended.calls(
        outcomes.drop_first(),
    ));
    assert(state.calls(outcomes) =~= seq![state.stage.call()->Some_0]);
}

/// When the request names a clock range and locking it fails, that call is
/// the only one made: the offsets and the power limit are not attempted,
/// whether the request names them or not.
pub proof fn lemma_clock_failure_stops_everything(config: Config, outcomes: Seq<CallOutcome>)
    requires
        !config.dry_run,
        config.clocks is Some,
        outcomes.len() > 0,
        !outcomes[0].succeeded(),
    ensures
        OverclockView::started(config).calls(outcomes) == seq![
            GatewayCall::DeviceSetGpuLockedClocks {
                min_gpu_clock: config.clocks->Some_0.0,
                max_gpu_clock: config.clocks->Some_0.1,
            },
        ],
{
    lemma_run_starts_at_first_named(config);
    let state = OverclockView::started(config);
    assert(outcomes =~= seq![outcomes[0]] + outcomes.drop_first());
    lemma_failure_ends_run(state, outcomes[0], outcomes.drop_first());
}

/// In a dry run no call that is made writes, whatever the outcomes are.
pub proof fn lemma_dry_run_never_writes(state: OverclockView, outcomes: Seq<CallOutcome>)
    requires
        state.consistent(),
        state.config.dry_run,
    ensures
        forall|i: int|
            0 <= i < state.calls(outcomes).len() ==> !(#[trigger] state.calls(outcomes)[i]).writes(),
    decreases outcomes.len(),
{
    if outcomes.len() > 0 && state.stage !is Finished {
        let next = state.after(outcomes[0]);
        lemma_overclock_stays_consistent(state, outcomes[0]);
        lemma_dry_run_never_writes(next, outcomes.drop_first());
        let rest = next.calls(outcomes.drop_first());
        assert forall|i: int| 0 <= i < state.calls(outcomes).len() implies !(
        #[trigger] state.calls(outcomes)[i]).writes() by {
            if i > 0 {
                assert(state.calls(outcomes)[i] == rest[i - 1]);
            }
        }
    }
}

/// A run started for a dry-run request makes no call that writes.
pub proof fn lemma_dry_run_request_never_writes(config: Config, outcomes: Seq<CallOutcome>)
    requires
        config.dry_run,
    ensures
        forall|i: int|
            0 <= i < OverclockView::started(config).calls(outcomes).len() ==> !(
            #[trigger] OverclockView::started(config).calls(outcomes)[i]).writes(),
{
    lemma_enter_goes_forward(config, 0);
    lemma_dry_run_never_writes(OverclockView::started(config), outcomes);
}

/// A dry run that names a power limit reads the three limits, writes
/// nothing, and announces the wattage the limit would be set to: the named
/// share of the default limit just read, moved into the range just read.
pub proof fn lemma_dry_run_announces_power_limit(
    config: Config,
    limit: CallOutcome,
    default: CallOutcome,
    range: CallOutcome,
)
    requires
        config.dry_run,
        config.power_limit is Some,
        limit.succeeded(),
        default.succeeded(),
        range.succeeded(),
    ensures
        ({
            let percentage = config.power_limit->Some_0;
            let start = OverclockView::started(config);
            let last = start.after(limit).after(default);
            &&& start.calls(seq![limit, default, range]) == seq![
                GatewayCall::DeviceGetPowerLimit,
                GatewayCall::DeviceGetPowerDefaultLimit,
                GatewayCall::DeviceGetPowerLimitConstraints,
            ]
            &&& start.notices(limit) == Seq::<Notice>::empty()
            &&& start.after(limit).notices(default) == Seq::<Notice>::empty()
            &&& last.notices(range) == seq![
                Notice::DryPowerLimit {
                    percentage,
                    watts: clamp_watts(
                        watts_at(default.value as int / 1000, percentage as int),
                        range.value as int / 1000,
                        range.second as int / 1000,
                    ) as u32,
                },
            ]
            &&& last.after(range).result() == Some(Ok::<(), AppError>(()))
        }),
{
    lemma_dry_run_announces(config);
    reveal_with_fuel(OverclockView::calls, 4);
    let start = OverclockView::started(config);
    let answers = seq![limit, default, range];
    let after_first = answers.drop_first();
    let after_second = after_first.drop_first();
    assert(answers[0] == limit && after_first[0] == default && after_second[0] == range);
    assert(after_second.drop_first().len() == 0);
    assert(start.calls(answers) =~= seq![
        GatewayCall::DeviceGetPowerLimit,
        GatewayCall::DeviceGetPowerDefaultLimit,
        GatewayCall::DeviceGetPowerLimitConstraints,
    ]);
}

} // verus!
