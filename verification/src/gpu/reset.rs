//! Restoring every tuned setting to its default.
//!
//! The reset is a fixed sequence of six steps. A step that fails is reported
//! at once and the sequence goes on: each setting is independent hardware
//! state, and the user needs to know about every one that could not be
//! restored, not only the first. The single dependency is at the start: the
//! locked clock range can only be released from within the idle range, so if
//! parking the clocks there fails, the release is not attempted.
//!
//! Nothing is rolled back. When the sequence ends with a failure on record,
//! the steps that succeeded stay applied.

use vstd::prelude::*;
use crate::constants::clocks;
use crate::error::AppError;
use crate::gpu::domain::power::{reset_power_limit, PowerRestore, Progress};
use crate::gpu::notice::Notice;
use crate::nvml::error::NvmlError;
use crate::nvml::gateway::{CallOutcome, GatewayCall};
use crate::nvml::types::{NvmlClockOffset, NvmlClockType, NvmlPerfState};

verus! {

/// One of the six things a reset restores, in the order they are restored.
#[derive(Debug, Clone, Copy, PartialEq, Eq, Structural)]
pub enum ResetStep {
    /// Park the graphics clock in the idle range.
    IdleClocks,
    /// Release the locked graphics clock range.
    GpuLockedClocks,
    /// Release the locked memory clock range.
    MemoryLockedClocks,
    /// Clear the graphics clock offset.
    GraphicsOffset,
    /// Clear the memory voltage-frequency offset.
    MemoryVfOffset,
    /// Restore the default power limit.
    PowerLimit,
}

/// The six steps in order.
pub open spec fn all_steps() -> Seq<ResetStep> {
    seq![
        ResetStep::IdleClocks,
        ResetStep::GpuLockedClocks,
        ResetStep::MemoryLockedClocks,
        ResetStep::GraphicsOffset,
        ResetStep::MemoryVfOffset,
        ResetStep::PowerLimit,
    ]
}

impl ResetStep {
    /// Text of [`ResetStep::name`].
    pub open spec fn name_text(self) -> Seq<char> {
        match self {
            ResetStep::IdleClocks => "Idle clock range"@,
            ResetStep::GpuLockedClocks => "GPU locked clocks"@,
            ResetStep::MemoryLockedClocks => "Memory locked clocks"@,
            ResetStep::GraphicsOffset => "Graphics offset"@,
            ResetStep::MemoryVfOffset => "Memory VF offset"@,
            ResetStep::PowerLimit => "Power limit"@,
        }
    }

    /// What the step is called in messages.
    pub fn name(&self) -> (name: &'static str)
        ensures
            name@ == self.name_text(),
    {
        match self {
            ResetStep::IdleClocks => "Idle clock range",
            ResetStep::GpuLockedClocks => "GPU locked clocks",
            ResetStep::MemoryLockedClocks => "Memory locked clocks",
            ResetStep::GraphicsOffset => "Graphics offset",
            ResetStep::MemoryVfOffset => "Memory VF offset",
            ResetStep::PowerLimit => "Power limit",
        }
    }
}

/// How one step ended.
#[derive(Debug, Clone, Copy, PartialEq, Eq, Structural)]
pub struct StepRecord {
    pub step: ResetStep,
    pub succeeded: bool,
}

/// Whether every record is a success.
pub open spec fn all_succeeded(records: Seq<StepRecord>) -> bool {
    forall|i: int| 0 <= i < records.len() ==> (#[trigger] records[i]).succeeded
}

/// The steps on record that ended as `succeeded` says, in order.
pub open spec fn steps_that(records: Seq<StepRecord>, succeeded: bool) -> Seq<ResetStep>
    decreases records.len(),
{
    if records.len() == 0 {
        Seq::empty()
    } else {
        let earlier = steps_that(records.drop_last(), succeeded);
        if records.last().succeeded == succeeded {
            earlier.push(records.last().step)
        } else {
            earlier
        }
    }
}

/// The record of a reset: how each step ended, in order, and whether all of
/// them succeeded. It grows while the reset runs and is read once it is over.
#[derive(Debug)]
pub struct ResetOutcome {
    steps: Vec<StepRecord>,
    success: bool,
}

impl View for ResetOutcome {
    type V = Seq<StepRecord>;

    closed spec fn view(&self) -> Seq<StepRecord> {
        self.steps@
    }
}

impl ResetOutcome {
    #[verifier::type_invariant]
    spec fn flag_matches_records(self) -> bool {
        self.success == all_succeeded(self.steps@)
    }

    /// A record with no step on it.
    pub fn new() -> (outcome: Self)
        ensures
            outcome@ == Seq::<StepRecord>::empty(),
    {
        ResetOutcome { steps: Vec::new(), success: true }
    }

    /// This record with one more step at its end.
    pub fn record(self, step: ResetStep, succeeded: bool) -> (outcome: Self)
        ensures
            outcome@ == self@.push(StepRecord { step, succeeded }),
    {
        proof {
            use_type_invariant(&self);
        }
        let ResetOutcome { steps, success } = self;
        let mut steps = steps;
        let ghost before = steps@;
        steps.push(StepRecord { step, succeeded });
        assert(all_succeeded(steps@) == (all_succeeded(before) && succeeded)) by {
            if all_succeeded(steps@) {
                assert(steps@[before.len() as int].succeeded);
                assert forall|i: int| 0 <= i < before.len() implies (#[trigger] before[i]).succeeded by {
                    assert(steps@[i].succeeded);
                }
            }
        }
        ResetOutcome { steps, success: success && succeeded }
    }

    /// How each step ended, in the order the steps were taken.
    pub fn steps(&self) -> (steps: &Vec<StepRecord>)
        ensures
            steps@ == self@,
    {
        &self.steps
    }

    /// Whether every step on record succeeded.
    pub fn success(&self) -> (success: bool)
        ensures
            success == all_succeeded(self@),
    {
        proof {
            use_type_invariant(self);
        }
        self.success
    }

    /// The steps that succeeded, in order.
    pub fn completed(&self) -> (steps: Vec<ResetStep>)
        ensures
            steps@ == steps_that(self@, true),
    {
        self.select(true)
    }

    /// The steps that failed or were skipped, in order.
    pub fn failed(&self) -> (steps: Vec<ResetStep>)
        ensures
            steps@ == steps_that(self@, false),
    {
        self.select(false)
    }

    /// The steps on record that ended as `succeeded` says, in order.
    fn select(&self, succeeded: bool) -> (steps: Vec<ResetStep>)
        ensures
            steps@ == steps_that(self@, succeeded),
    {
        let mut chosen: Vec<ResetStep> = Vec::new();
        let mut i: usize = 0;
        while i < self.steps.len()
            invariant
                i <= self.steps.len(),
                chosen@ == steps_that(self.steps@.take(i as int), succeeded),
            decreases self.steps.len() - i,
        {
            let record = self.steps[i];
            assert(self.steps@.take(i + 1).drop_last() == self.steps@.take(i as int));
            if record.succeeded == succeeded {
                chosen.push(record.step);
            }
            i += 1;
        }
        assert(self.steps@.take(i as int) == self.steps@);
        chosen
    }
}

/// Where a reset stands: the call it is waiting on, or that it is over.
#[derive(Debug, Clone, Copy, PartialEq, Eq, Structural)]
pub enum ResetStage {
    /// Parking the graphics clock in the idle range.
    IdleClocks,
    /// Releasing the locked graphics clock range.
    GpuLockedClocks,
    /// Releasing the locked memory clock range.
    MemoryLockedClocks,
    /// Clearing the graphics clock offset.
    GraphicsOffset,
    /// Clearing the memory voltage-frequency offset.
    MemoryVfOffset,
    /// Restoring the default power limit.
    PowerLimit(PowerRestore),
    /// No call is outstanding.
    Finished,
}

impl ResetStage {
    /// The step a stage works on. `Finished` works on none; it is counted
    /// with the last step.
    pub open spec fn step(self) -> ResetStep {
        match self {
            ResetStage::IdleClocks => ResetStep::IdleClocks,
            ResetStage::GpuLockedClocks => ResetStep::GpuLockedClocks,
            ResetStage::MemoryLockedClocks => ResetStep::MemoryLockedClocks,
            ResetStage::GraphicsOffset => ResetStep::GraphicsOffset,
            ResetStage::MemoryVfOffset => ResetStep::MemoryVfOffset,
            ResetStage::PowerLimit(_) => ResetStep::PowerLimit,
            ResetStage::Finished => ResetStep::PowerLimit,
        }
    }

    /// How far along the sequence a stage is. Every transition moves to a
    /// stage further along, so no stage is entered twice.
    pub open spec fn position(self) -> nat {
        match self {
            ResetStage::IdleClocks => 0,
            ResetStage::GpuLockedClocks => 1,
            ResetStage::MemoryLockedClocks => 2,
            ResetStage::GraphicsOffset => 3,
            ResetStage::MemoryVfOffset => 4,
            ResetStage::PowerLimit(PowerRestore::Reading) => 5,
            ResetStage::PowerLimit(PowerRestore::Writing { .. }) => 6,
            ResetStage::Finished => 7,
        }
    }

    /// How many steps are on record when a reset that makes calls stands at
    /// this stage.
    pub open spec fn steps_recorded(self) -> nat {
        match self {
            ResetStage::IdleClocks => 0,
            ResetStage::GpuLockedClocks => 1,
            ResetStage::MemoryLockedClocks => 2,
            ResetStage::GraphicsOffset => 3,
            ResetStage::MemoryVfOffset => 4,
            ResetStage::PowerLimit(_) => 5,
            ResetStage::Finished => 6,
        }
    }

    /// The call a stage is waiting on.
    pub open spec fn call(self) -> Option<GatewayCall> {
        match self {
            ResetStage::IdleClocks => Some(
                GatewayCall::DeviceSetGpuLockedClocks {
                    min_gpu_clock: clocks::BLACKWELL_IDLE_MIN,
                    max_gpu_clock: clocks::BLACKWELL_IDLE_MAX,
                },
            ),
            ResetStage::GpuLockedClocks => Some(GatewayCall::DeviceResetGpuLockedClocks),
            ResetStage::MemoryLockedClocks => Some(GatewayCall::DeviceResetMemoryLockedClocks),
            ResetStage::GraphicsOffset => Some(
                GatewayCall::DeviceSetClockOffset {
                    request: NvmlClockOffset {
                        version: crate::nvml::types::NVML_CLOCK_OFFSET_V1,
                        type_: NvmlClockType::Graphics,
                        pstate: NvmlPerfState::P0,
                        clockOffsetMHz: clocks::DEFAULT_GRAPHICS_OFFSET,
                        minClockOffsetMHz: 0,
                        maxClockOffsetMHz: 0,
                    },
                },
            ),
            ResetStage::MemoryVfOffset => Some(
                GatewayCall::DeviceSetMemoryVfOffset { offset: clocks::DEFAULT_MEMORY_OFFSET },
            ),
            ResetStage::PowerLimit(task) => Some(task.call()),
            ResetStage::Finished => None,
        }
    }

    /// The stage that follows once the outstanding call has ended as
    /// `outcome` says. Two transitions look at the outcome: a failure to park
    /// the clocks passes over the release of the locked range, and a failure
    /// to read the default power limit leaves nothing to write. Every other
    /// stage is followed by the same stage whether its call failed or not.
    pub open spec fn next(self, outcome: CallOutcome) -> ResetStage {
        match self {
            ResetStage::IdleClocks => if outcome.succeeded() {
                ResetStage::GpuLockedClocks
            } else {
                ResetStage::MemoryLockedClocks
            },
            ResetStage::GpuLockedClocks => ResetStage::MemoryLockedClocks,
            ResetStage::MemoryLockedClocks => ResetStage::GraphicsOffset,
            ResetStage::GraphicsOffset => ResetStage::MemoryVfOffset,
            ResetStage::MemoryVfOffset => ResetStage::PowerLimit(PowerRestore::Reading),
            ResetStage::PowerLimit(task) => match task.after(outcome) {
                Progress::More(task) => ResetStage::PowerLimit(task),
                _ => ResetStage::Finished,
            },
            ResetStage::Finished => ResetStage::Finished,
        }
    }

    /// What goes on record once the outstanding call has ended as `outcome`
    /// says: how the stage's step ended, and, after a failure to park the
    /// clocks, a failure for the release that is passed over. A default
    /// power limit that was read puts nothing on record yet; the step ends
    /// with the write.
    pub open spec fn records(self, outcome: CallOutcome) -> Seq<StepRecord> {
        match self {
            ResetStage::Finished => Seq::empty(),
            ResetStage::IdleClocks => if outcome.succeeded() {
                seq![StepRecord { step: ResetStep::IdleClocks, succeeded: true }]
            } else {
                seq![
                    StepRecord { step: ResetStep::IdleClocks, succeeded: false },
                    StepRecord { step: ResetStep::GpuLockedClocks, succeeded: false },
                ]
            },
            ResetStage::PowerLimit(task) => match task.after(outcome) {
                Progress::More(_) => Seq::empty(),
                Progress::Done => seq![StepRecord { step: ResetStep::PowerLimit, succeeded: true }],
                Progress::Failed(_) => seq![
                    StepRecord { step: ResetStep::PowerLimit, succeeded: false },
                ],
            },
            _ => seq![StepRecord { step: self.step(), succeeded: outcome.succeeded() }],
        }
    }

    /// What the user is told about the outstanding call itself: nothing if it
    /// succeeded; if it failed, that it did and why, and what follows from
    /// that for the user.
    pub open spec fn failure_notices(self, outcome: CallOutcome) -> Seq<Notice> {
        match outcome.failure() {
            None => Seq::empty(),
            Some(cause) => match self {
                ResetStage::Finished => Seq::empty(),
                ResetStage::IdleClocks => seq![
                    Notice::ResetStepFailed { step: ResetStep::IdleClocks, cause },
                    Notice::ResetStepSkipped { step: ResetStep::GpuLockedClocks },
                ],
                ResetStage::GraphicsOffset => seq![
                    Notice::ResetStepFailed { step: ResetStep::GraphicsOffset, cause },
                    Notice::GraphicsOffsetHint,
                ],
                _ => seq![Notice::ResetStepFailed { step: self.step(), cause }],
            },
        }
    }
}

/// The state of a reset as contracts see it.
pub struct ResetView {
    pub stage: ResetStage,
    pub records: Seq<StepRecord>,
}

impl ResetView {
    /// Whether the record fits the stage: a reset that makes calls has the
    /// steps before its stage on record, each once and in order; a dry run is
    /// over at once with nothing on record.
    pub open spec fn consistent(self) -> bool {
        ||| self.stage is Finished && self.records.len() == 0
        ||| {
            &&& self.records.len() == self.stage.steps_recorded()
            &&& forall|i: int|
                0 <= i < self.records.len() ==> (#[trigger] self.records[i]).step == all_steps()[i]
        }
    }

    /// The state after the outstanding call has ended as `outcome` says.
    pub open spec fn after(self, outcome: CallOutcome) -> ResetView {
        ResetView {
            stage: self.stage.next(outcome),
            records: self.records + self.stage.records(outcome),
        }
    }

    /// What the user is told when the outstanding call has ended as
    /// `outcome` says: first about the call itself, then, if this was the
    /// last call, how the reset as a whole ended.
    pub open spec fn notices(self, outcome: CallOutcome) -> Seq<Notice> {
        let told = self.stage.failure_notices(outcome);
        if self.stage !is Finished && self.after(outcome).stage is Finished {
            told.push(closing_notice(all_succeeded(self.after(outcome).records)))
        } else {
            told
        }
    }

    /// How the reset ended, once it is over: well if every step on record
    /// succeeded; otherwise with one error for all failures together, marked
    /// as shown because each failure was reported when it happened.
    pub open spec fn result(self) -> Option<Result<(), AppError>> {
        if self.stage is Finished {
            if all_succeeded(self.records) {
                Some(Ok(()))
            } else {
                Some(Err(reset_failure()))
            }
        } else {
            None
        }
    }
}

/// The notice that ends a reset.
pub open spec fn closing_notice(success: bool) -> Notice {
    if success { Notice::ResetDone } else { Notice::ResetIncomplete }
}

/// The one error that stands for every failed step of a reset.
pub open spec fn reset_failure() -> AppError {
    AppError { domain: "reset", source: None, message: None, printed: true }
}

/// A reset in progress.
#[derive(Debug)]
pub struct Reset {
    stage: ResetStage,
    outcome: ResetOutcome,
}

impl View for Reset {
    type V = ResetView;

    closed spec fn view(&self) -> ResetView {
        ResetView { stage: self.stage, records: self.outcome@ }
    }
}

/// Begins a reset and says what to tell the user first.
///
/// A dry run is over before it starts: it asks for no call, puts nothing on
/// record and announces that a full reset would take place. Any other reset
/// starts by parking the clocks in the idle range.
pub fn reset_gpu_settings(dry_run: bool) -> (started: (Reset, Vec<Notice>))
    ensures
        started.0@.records == Seq::<StepRecord>::empty(),
        started.0@.consistent(),
        dry_run ==> started.0@.stage is Finished && started.1@ == seq![Notice::DryReset],
        !dry_run ==> started.0@.stage is IdleClocks && started.1@ == Seq::<Notice>::empty(),
{
    let mut notices: Vec<Notice> = Vec::new();
    let stage = if dry_run {
        notices.push(Notice::DryReset);
        ResetStage::Finished
    } else {
        ResetStage::IdleClocks
    };
    (Reset { stage, outcome: ResetOutcome::new() }, notices)
}

impl Reset {
    #[verifier::type_invariant]
    spec fn record_fits_stage(self) -> bool {
        self@.consistent()
    }

    /// The stage the reset stands at.
    pub fn stage(&self) -> (stage: ResetStage)
        ensures
            stage == self@.stage,
            self@.consistent(),
    {
        proof {
            use_type_invariant(self);
        }
        self.stage
    }

    /// The call to make next, or `None` when the reset is over.
    pub fn pending(&self) -> (call: Option<GatewayCall>)
        ensures
            call == self@.stage.call(),
            call is None <==> self@.stage is Finished,
    {
        match self.stage {
            ResetStage::IdleClocks => Some(
                GatewayCall::DeviceSetGpuLockedClocks {
                    min_gpu_clock: clocks::BLACKWELL_IDLE_MIN,
                    max_gpu_clock: clocks::BLACKWELL_IDLE_MAX,
                },
            ),
            ResetStage::GpuLockedClocks => Some(GatewayCall::DeviceResetGpuLockedClocks),
            ResetStage::MemoryLockedClocks => Some(GatewayCall::DeviceResetMemoryLockedClocks),
            ResetStage::GraphicsOffset => Some(
                GatewayCall::DeviceSetClockOffset {
                    request: NvmlClockOffset::new_v1(
                        NvmlClockType::Graphics,
                        NvmlPerfState::P0,
                        clocks::DEFAULT_GRAPHICS_OFFSET,
                    ),
                },
            ),
            ResetStage::MemoryVfOffset => Some(
                GatewayCall::DeviceSetMemoryVfOffset { offset: clocks::DEFAULT_MEMORY_OFFSET },
            ),
            ResetStage::PowerLimit(task) => Some(task.pending()),
            ResetStage::Finished => None,
        }
    }

    /// Whether the reset is over.
    pub fn finished(&self) -> (over: bool)
        ensures
            over == self@.stage is Finished,
    {
        match self.stage {
            ResetStage::Finished => true,
            _ => false,
        }
    }

    /// Takes in what came of the pending call and moves on. Returns the reset
    /// in its next state and what to tell the user now.
    ///
    /// Once the reset is over, an outcome changes nothing.
    pub fn advance(self, outcome: CallOutcome) -> (moved: (Reset, Vec<Notice>))
        ensures
            moved.0@ == self@.after(outcome),
            moved.1@ == self@.notices(outcome),
            moved.0@.consistent(),
    {
        proof {
            use_type_invariant(&self);
            lemma_after_keeps_consistent(self@, outcome);
        }
        let Reset { stage, outcome: log } = self;
        let ghost before = log@;
        let checked = outcome.check();
        let mut notices: Vec<Notice> = Vec::new();
        let (next, log) = match stage {
            ResetStage::IdleClocks => match checked {
                Ok(()) => (
                    ResetStage::GpuLockedClocks,
                    log.record(ResetStep::IdleClocks, true),
                ),
                Err(cause) => {
                    notices.push(Notice::ResetStepFailed { step: ResetStep::IdleClocks, cause });
                    notices.push(Notice::ResetStepSkipped { step: ResetStep::GpuLockedClocks });
                    let log = log.record(ResetStep::IdleClocks, false);
                    (ResetStage::MemoryLockedClocks, log.record(ResetStep::GpuLockedClocks, false))
                },
            },
            ResetStage::GpuLockedClocks => (
                ResetStage::MemoryLockedClocks,
                settle(log, ResetStep::GpuLockedClocks, checked, &mut notices),
            ),
            ResetStage::MemoryLockedClocks => (
                ResetStage::GraphicsOffset,
                settle(log, ResetStep::MemoryLockedClocks, checked, &mut notices),
            ),
            ResetStage::GraphicsOffset => {
                let log = settle(log, ResetStep::GraphicsOffset, checked, &mut notices);
                if checked.is_err() {
                    notices.push(Notice::GraphicsOffsetHint);
                }
                (ResetStage::MemoryVfOffset, log)
            },
            ResetStage::MemoryVfOffset => (
                ResetStage::PowerLimit(reset_power_limit()),
                settle(log, ResetStep::MemoryVfOffset, checked, &mut notices),
            ),
            ResetStage::PowerLimit(task) => match task.advance(outcome) {
                Progress::More(task) => (ResetStage::PowerLimit(task), log),
                _ => (
                    ResetStage::Finished,
                    settle(log, ResetStep::PowerLimit, checked, &mut notices),
                ),
            },
            ResetStage::Finished => (ResetStage::Finished, log),
        };
        assert(log@ =~= before + stage.records(outcome));
        assert(notices@ =~= stage.failure_notices(outcome));
        let closing = match (stage, next) {
            (ResetStage::Finished, _) => false,
            (_, ResetStage::Finished) => true,
            _ => false,
        };
        if closing {
            notices.push(
                if log.success() {
                    Notice::ResetDone
                } else {
                    Notice::ResetIncomplete
                },
            );
        }
        (Reset { stage: next, outcome: log }, notices)
    }

    /// How each step ended so far.
    pub fn outcome(&self) -> (outcome: &ResetOutcome)
        ensures
            outcome@ == self@.records,
    {
        &self.outcome
    }

    /// How the reset ended, or `None` while a call is pending.
    ///
    /// It ended well if and only if no step on record failed. Otherwise the
    /// error is the same whichever steps failed and however many.
    pub fn result(&self) -> (result: Option<Result<(), AppError>>)
        ensures
            result == self@.result(),
    {
        match self.stage {
            ResetStage::Finished => if self.outcome.success() {
                Some(Ok(()))
            } else {
                Some(Err(AppError::printed("reset")))
            },
            _ => None,
        }
    }
}

/// Puts on record how `step` ended and, if it failed, says so.
fn settle(
    log: ResetOutcome,
    step: ResetStep,
    checked: Result<(), NvmlError>,
    notices: &mut Vec<Notice>,
) -> (grown: ResetOutcome)
    ensures
        grown@ == log@.push(StepRecord { step, succeeded: checked is Ok }),
        final(notices)@ == (match checked {
            Ok(_) => old(notices)@,
            Err(cause) => old(notices)@.push(Notice::ResetStepFailed { step, cause }),
        }),
{
    match checked {
        Ok(()) => log.record(step, true),
        Err(cause) => {
            notices.push(Notice::ResetStepFailed { step, cause });
            log.record(step, false)
        },
    }
}

/// A transition keeps the record fitting the stage.
pub proof fn lemma_after_keeps_consistent(state: ResetView, outcome: CallOutcome)
    requires
        state.consistent(),
    ensures
        state.after(outcome).consistent(),
{
    let next = state.after(outcome);
    if state.stage is Finished {
        assert(next.records =~= state.records);
    } else {
        assert(next.records.len() == next.stage.steps_recorded());
        assert forall|i: int| 0 <= i < next.records.len() implies (#[trigger] next.records[i]).step
            == all_steps()[i] by {
            if i < state.records.len() {
                assert(next.records[i] == state.records[i]);
            }
        }
    }
}

impl ResetView {
    /// The state a reset that makes calls starts in.
    pub open spec fn started() -> ResetView {
        ResetView { stage: ResetStage::IdleClocks, records: Seq::empty() }
    }

    /// The state after the outcomes handed back have been `outcomes`, in
    /// order.
    pub open spec fn run(self, outcomes: Seq<CallOutcome>) -> ResetView
        decreases outcomes.len(),
    {
        if outcomes.len() == 0 {
            self
        } else {
            self.after(outcomes[0]).run(outcomes.drop_first())
        }
    }

    /// The calls that are made, in order, when the outcomes handed back are
    /// `outcomes`, one for each call, for as long as a call is pending.
    pub open spec fn calls(self, outcomes: Seq<CallOutcome>) -> Seq<GatewayCall>
        decreases outcomes.len(),
    {
        if outcomes.len() == 0 || self.stage is Finished {
            Seq::empty()
        } else {
            seq![self.stage.call()->Some_0] + self.after(outcomes[0]).calls(outcomes.drop_first())
        }
    }
}

/// The calls of a reset in which the clocks could be parked and the default
/// power limit could be read as `default_mw`.
pub open spec fn full_course(default_mw: u32) -> Seq<GatewayCall> {
    seq![
        ResetStage::IdleClocks.call()->Some_0,
        ResetStage::GpuLockedClocks.call()->Some_0,
        ResetStage::MemoryLockedClocks.call()->Some_0,
        ResetStage::GraphicsOffset.call()->Some_0,
        ResetStage::MemoryVfOffset.call()->Some_0,
        GatewayCall::DeviceGetPowerDefaultLimit,
        GatewayCall::DeviceSetPowerLimit { limit_mw: default_mw },
    ]
}

/// Every transition moves a reset further along its sequence, so no call is
/// made twice and nothing that was done is undone.
pub proof fn lemma_reset_moves_forward(stage: ResetStage, outcome: CallOutcome)
    requires
        stage !is Finished,
    ensures
        stage.next(outcome).position() > stage.position(),
{
}

/// Whether a call fails decides what follows it in two places only: after
/// parking the clocks and after reading the default power limit. Everywhere
/// else the same stage follows whatever came of the call.
pub proof fn lemma_reset_goes_on_after_failure(stage: ResetStage, one: CallOutcome, other: CallOutcome)
    requires
        stage !is IdleClocks,
        stage != ResetStage::PowerLimit(PowerRestore::Reading),
    ensures
        stage.next(one) == stage.next(other),
{
}

/// A dry run makes no call.
pub proof fn lemma_dry_reset_makes_no_call(outcomes: Seq<CallOutcome>)
    ensures
        (ResetView { stage: ResetStage::Finished, records: Seq::empty() }).calls(outcomes)
            == Seq::<GatewayCall>::empty(),
        (ResetView { stage: ResetStage::Finished, records: Seq::empty() }).result() == Some(
            Ok::<(), AppError>(()),
        ),
{
}

/// When parking the clocks fails, the release of the locked clock range is
/// put on record as failed without being asked for, and the four steps after
/// it are each attempted, whatever comes of the others.
pub proof fn lemma_idle_failure_passes_over_release(outcomes: Seq<CallOutcome>)
    requires
        outcomes.len() == 5,
        !outcomes[0].succeeded(),
    ensures
        ResetView::started().after(outcomes[0]).stage == ResetStage::MemoryLockedClocks,
        ResetView::started().after(outcomes[0]).records == seq![
            StepRecord { step: ResetStep::IdleClocks, succeeded: false },
            StepRecord { step: ResetStep::GpuLockedClocks, succeeded: false },
        ],
        ResetView::started().calls(outcomes) == seq![
            ResetStage::IdleClocks.call()->Some_0,
            ResetStage::MemoryLockedClocks.call()->Some_0,
            ResetStage::GraphicsOffset.call()->Some_0,
            ResetStage::MemoryVfOffset.call()->Some_0,
            GatewayCall::DeviceGetPowerDefaultLimit,
        ],
        outcomes[4].succeeded() ==> ResetView::started().run(outcomes).stage == (
        ResetStage::PowerLimit(PowerRestore::Writing { default_mw: outcomes[4].value })),
        !outcomes[4].succeeded() ==> ResetView::started().run(outcomes).stage is Finished,
{
    reveal_with_fuel(ResetView::calls, 6);
    reveal_with_fuel(ResetView::run, 6);
    let s0 = ResetView::started();
    assert(s0.after(outcomes[0]).records =~= seq![
        StepRecord { step: ResetStep::IdleClocks, succeeded: false },
        StepRecord { step: ResetStep::GpuLockedClocks, succeeded: false },
    ]);
    let o1 = outcomes.drop_first();
    let o2 = o1.drop_first();
    let o3 = o2.drop_first();
    let o4 = o3.drop_first();
    assert(o1[0] == outcomes[1] && o2[0] == outcomes[2] && o3[0] == outcomes[3] && o4[0]
        == outcomes[4]);
    assert(o4.drop_first().len() == 0);
    assert(s0.calls(outcomes) =~= seq![
        ResetStage::IdleClocks.call()->Some_0,
        ResetStage::MemoryLockedClocks.call()->Some_0,
        ResetStage::GraphicsOffset.call()->Some_0,
        ResetStage::MemoryVfOffset.call()->Some_0,
        GatewayCall::DeviceGetPowerDefaultLimit,
    ]);
}

/// As long as the clocks can be parked and the default power limit can be
/// read, a reset makes the same seven calls whichever of them fail: a failure
/// neither cuts the sequence short nor adds a call that takes back what an
/// earlier one did. The reset ends well if and only if all seven succeeded.
pub proof fn lemma_reset_course_is_fixed(outcomes: Seq<CallOutcome>)
    requires
        outcomes.len() == 7,
        outcomes[0].succeeded(),
        outcomes[5].succeeded(),
    ensures
        ResetView::started().calls(outcomes) == full_course(outcomes[5].value),
        ResetView::started().run(outcomes).stage is Finished,
        ResetView::started().run(outcomes).records == seq![
            StepRecord { step: ResetStep::IdleClocks, succeeded: true },
            StepRecord { step: ResetStep::GpuLockedClocks, succeeded: outcomes[1].succeeded() },
            StepRecord { step: ResetStep::MemoryLockedClocks, succeeded: outcomes[2].succeeded() },
            StepRecord { step: ResetStep::GraphicsOffset, succeeded: outcomes[3].succeeded() },
            StepRecord { step: ResetStep::MemoryVfOffset, succeeded: outcomes[4].succeeded() },
            StepRecord { step: ResetStep::PowerLimit, succeeded: outcomes[6].succeeded() },
        ],
        ResetView::started().run(outcomes).result() == (if forall|i: int|
            0 <= i < 7 ==> (#[trigger] outcomes[i]).succeeded() {
            Some(Ok::<(), AppError>(()))
        } else {
            Some(Err::<(), AppError>(reset_failure()))
        }),
{
    reveal_with_fuel(ResetView::calls, 8);
    reveal_with_fuel(ResetView::run, 8);
    let s0 = ResetView::started();
    let o1 = outcomes.drop_first();
    let o2 = o1.drop_first();
    let o3 = o2.drop_first();
    let o4 = o3.drop_first();
    let o5 = o4.drop_first();
    let o6 = o5.drop_first();
    assert(o1[0] == outcomes[1] && o2[0] == outcomes[2] && o3[0] == outcomes[3] && o4[0]
        == outcomes[4] && o5[0] == outcomes[5] && o6[0] == outcomes[6]);
    assert(o6.drop_first().len() == 0);
    assert(s0.calls(outcomes) =~= full_course(outcomes[5].value));
    let end = s0.run(outcomes);
    let expected = seq![
        StepRecord { step: ResetStep::IdleClocks, succeeded: true },
        StepRecord { step: ResetStep::GpuLockedClocks, succeeded: outcomes[1].succeeded() },
        StepRecord { step: ResetStep::MemoryLockedClocks, succeeded: outcomes[2].succeeded() },
        StepRecord { step: ResetStep::GraphicsOffset, succeeded: outcomes[3].succeeded() },
        StepRecord { step: ResetStep::MemoryVfOffset, succeeded: outcomes[4].succeeded() },
        StepRecord { step: ResetStep::PowerLimit, succeeded: outcomes[6].succeeded() },
    ];
    assert(end.records =~= expected);
    if forall|i: int| 0 <= i < 7 ==> (#[trigger] outcomes[i]).succeeded() {
        assert(outcomes[1].succeeded() && outcomes[2].succeeded() && outcomes[3].succeeded()
            && outcomes[4].succeeded() && outcomes[6].succeeded());
        assert(all_succeeded(expected));
    } else {
        let i = choose|i: int| 0 <= i < 7 && !(#[trigger] outcomes[i]).succeeded();
        assert(i != 0 && i != 5);
        let j = if i == 6 { 5 } else { i };
        assert(!expected[j].succeeded);
        assert(!all_succeeded(expected));
    }
}

/// A reset ends with an error exactly when a step on record failed, and the
/// error is then the one that is marked as shown.
pub proof fn lemma_any_failure_fails_reset(state: ResetView)
    requires
        state.stage is Finished,
    ensures
        state.result() == Some(Ok::<(), AppError>(())) <==> all_succeeded(state.records),
        !all_succeeded(state.records) ==> state.result() == Some(
            Err::<(), AppError>(reset_failure()),
        ) && reset_failure().printed,
{
}

} // verus!
