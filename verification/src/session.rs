//! One run of the program from its first call to its last.
//!
//! A run goes through the same gates whatever it is for. The request must
//! be one that can be carried out, and an operation that changes settings
//! needs a privileged process; both are settled before the vendor library
//! is touched. Then the library is brought up, its driver
//! is judged, the device is looked up by its index, and the device must
//! turn out to be of the supported generation. Only then does the operation
//! itself begin.
//!
//! Once the library is up, the run tears it down again before it ends,
//! whether the operation succeeded, failed, or was never reached.

use vstd::prelude::*;
use vstd::string::*;
use crate::cli::{Config, Operation};
use crate::error::AppError;
use crate::gpu::info::{show_gpu_info, GpuInfo, InfoQuery, InfoView};
use crate::gpu::notice::Notice;
use crate::gpu::overclock::{
    apply, enter, lemma_enter_goes_forward, lemma_overclock_stays_consistent, Overclock,
    OverclockView,
};
use crate::gpu::reset::{
    lemma_after_keeps_consistent, reset_gpu_settings, Reset, ResetStage, ResetView, StepRecord,
};
use crate::gpu::validation::{
    architecture_gate, check_system_for_modification, validate_blackwell_architecture,
};
use crate::gpu::{driver_verdict, get_device, init_nvml, DriverVerdict};
use crate::constants::hardware;
use crate::nvml::error::NvmlError;
use crate::nvml::gateway::{CallOutcome, GatewayCall};
use crate::nvml::types::architecture_of;
use crate::text::uppercase_of;

verus! {

/// Something to tell the user in the course of a run.
#[derive(Debug, PartialEq, Eq)]
pub enum Report {
    /// A notice of the operation under way.
    Step(Notice),
    /// The driver reports this version and is recent enough.
    DriverAccepted { version: String },
    /// The driver reports this version, which is older than `minimum`.
    DriverTooOld { version: String, minimum: u32 },
    /// The driver version, shown as part of the device state.
    DriverVersion { version: String },
    /// The state of the device.
    Device(GpuInfo),
}

/// Where a run stands, as contracts see it.
pub enum PhaseView {
    /// Bringing the library up.
    Init,
    /// Reading the driver version to judge it.
    DriverGate,
    /// Counting the devices.
    DeviceCount,
    /// Selecting the device.
    DeviceHandle,
    /// Reading the device name to tell its generation.
    DeviceName,
    /// Reading the driver version to show it.
    InfoDriver,
    /// Reading the device state.
    Info(InfoView),
    /// Restoring the defaults.
    Resetting(ResetView),
    /// Applying settings.
    Overclocking(OverclockView),
    /// Tearing the library down.
    Shutdown,
    /// No call is outstanding.
    Finished,
}

/// The state of a run as contracts see it.
pub struct SessionView {
    pub config: Config,
    pub phase: PhaseView,
    pub error: Option<AppError>,
}

/// What one transition brings about.
pub struct Turn {
    pub phase: PhaseView,
    pub error: Option<AppError>,
    pub reports: Seq<Report>,
}

/// Notices of the operation as reports of the run.
pub open spec fn as_reports(notices: Seq<Notice>) -> Seq<Report> {
    Seq::new(notices.len(), |i: int| Report::Step(notices[i]))
}

/// A vendor failure attributed to `domain`.
pub open spec fn failure_in(domain: &'static str, cause: NvmlError) -> AppError {
    AppError { domain, source: Some(cause), message: None, printed: false }
}

/// A failure of `domain` that was shown where it arose.
pub open spec fn shown_failure_in(domain: &'static str) -> AppError {
    AppError { domain, source: None, message: None, printed: true }
}

/// The turn that ends the operation early: the library is torn down next and
/// the run will end with `error`.
pub open spec fn abandon(error: AppError) -> Turn {
    Turn { phase: PhaseView::Shutdown, error: Some(error), reports: Seq::empty() }
}

/// The turn that moves on to `phase` with nothing to tell.
pub open spec fn proceed(phase: PhaseView) -> Turn {
    Turn { phase, error: None, reports: Seq::empty() }
}

/// Where a run stands once a reset has reached `reset`, having just said
/// `notices`: in the reset while it has a call to make, else on the way out
/// with the reset's result.
pub open spec fn reset_turn(reset: ResetView, notices: Seq<Notice>) -> Turn {
    if reset.stage is Finished {
        Turn {
            phase: PhaseView::Shutdown,
            error: match reset.result() {
                Some(Err(error)) => Some(error),
                _ => None,
            },
            reports: as_reports(notices),
        }
    } else {
        Turn { phase: PhaseView::Resetting(reset), error: None, reports: as_reports(notices) }
    }
}

/// Where a run stands once applying settings has reached `overclock`,
/// having just said `notices`.
pub open spec fn overclock_turn(overclock: OverclockView, notices: Seq<Notice>) -> Turn {
    if overclock.stage is Finished {
        Turn {
            phase: PhaseView::Shutdown,
            error: match overclock.result() {
                Some(Err(error)) => Some(error),
                _ => None,
            },
            reports: as_reports(notices),
        }
    } else {
        Turn {
            phase: PhaseView::Overclocking(overclock),
            error: None,
            reports: as_reports(notices),
        }
    }
}

/// Where a run stands once a reading of the device state has reached
/// `info`: in the reading while it has a call to make, else on the way out,
/// with the state to show or with the failure to read the name.
pub open spec fn info_turn(info: InfoView) -> Turn {
    if info.stage is Finished {
        match info.failure {
            Some(cause) => abandon(failure_in("info", cause)),
            None => Turn {
                phase: PhaseView::Shutdown,
                error: None,
                reports: seq![Report::Device(info.report)],
            },
        }
    } else {
        proceed(PhaseView::Info(info))
    }
}

/// The turn that begins the operation `config` asks for, once both gates
/// are passed.
pub open spec fn begin_operation(config: Config) -> Turn {
    match config.selected() {
        Operation::Info => proceed(PhaseView::InfoDriver),
        Operation::Reset { dry_run } => if dry_run {
            reset_turn(
                ResetView { stage: ResetStage::Finished, records: Seq::empty() },
                seq![Notice::DryReset],
            )
        } else {
            reset_turn(ResetView::started(), Seq::empty())
        },
        Operation::Overclock => overclock_turn(
            OverclockView::started(config),
            enter(config, 0).1,
        ),
    }
}

impl SessionView {
    /// The state a run starts in.
    ///
    /// A request that cannot be carried out gets no further than this, and
    /// neither does a process without privilege if the operation is one that
    /// changes settings: the run is over before any call is made.
    pub open spec fn started(config: Config, uid: u32) -> SessionView {
        if !config.acceptable() {
            SessionView {
                config,
                phase: PhaseView::Finished,
                error: Some(failure_in("cli", NvmlError::InvalidArgument)),
            }
        } else if config.selected().modifies() && uid != 0 {
            SessionView {
                config,
                phase: PhaseView::Finished,
                error: Some(failure_in("nvoc", NvmlError::NoPermission)),
            }
        } else {
            SessionView { config, phase: PhaseView::Init, error: None }
        }
    }

    /// What the outstanding call, ended as `outcome` says and with `text` as
    /// its text output, brings about.
    pub open spec fn turn(self, outcome: CallOutcome, text: String) -> Turn {
        match self.phase {
            PhaseView::Init => match outcome.failure() {
                Some(cause) => Turn {
                    phase: PhaseView::Finished,
                    error: Some(failure_in("init", cause)),
                    reports: Seq::empty(),
                },
                None => proceed(PhaseView::DriverGate),
            },
            PhaseView::DriverGate => if outcome.succeeded() {
                match driver_verdict(text@) {
                    DriverVerdict::TooOld => Turn {
                        phase: PhaseView::Shutdown,
                        error: Some(shown_failure_in("driver")),
                        reports: seq![
                            Report::DriverTooOld {
                                version: text,
                                minimum: hardware::MIN_DRIVER_VERSION,
                            },
                        ],
                    },
                    DriverVerdict::Accepted => Turn {
                        phase: PhaseView::DeviceCount,
                        error: None,
                        reports: seq![Report::DriverAccepted { version: text }],
                    },
                    DriverVerdict::Unrecognized => proceed(PhaseView::DeviceCount),
                }
            } else {
                proceed(PhaseView::DeviceCount)
            },
            PhaseView::DeviceCount => match outcome.failure() {
                Some(cause) => abandon(failure_in("device", cause)),
                None => if self.config.device < outcome.value {
                    proceed(PhaseView::DeviceHandle)
                } else {
                    abandon(failure_in("device", NvmlError::InvalidArgument))
                },
            },
            PhaseView::DeviceHandle => match outcome.failure() {
                Some(cause) => abandon(failure_in("device", cause)),
                None => proceed(PhaseView::DeviceName),
            },
            PhaseView::DeviceName => match architecture_gate(
                match outcome.failure() {
                    Some(cause) => Err(cause),
                    None => Ok(text@),
                },
            ) {
                Err(cause) => abandon(failure_in("gpu", cause)),
                Ok(_) => begin_operation(self.config),
            },
            PhaseView::InfoDriver => match outcome.failure() {
                Some(cause) => abandon(failure_in("driver", cause)),
                None => Turn {
                    phase: PhaseView::Info(
                        InfoView::started(self.config.device),
                    ),
                    error: None,
                    reports: seq![Report::DriverVersion { version: text }],
                },
            },
            PhaseView::Info(info) => info_turn(info.after(outcome, text)),
            PhaseView::Resetting(reset) => reset_turn(
                reset.after(outcome),
                reset.notices(outcome),
            ),
            PhaseView::Overclocking(overclock) => overclock_turn(
                overclock.after(outcome),
                overclock.notices(outcome),
            ),
            PhaseView::Shutdown => Turn {
                phase: PhaseView::Finished,
                error: self.error,
                reports: Seq::empty(),
            },
            PhaseView::Finished => Turn {
                phase: PhaseView::Finished,
                error: self.error,
                reports: Seq::empty(),
            },
        }
    }

    /// The state after the outstanding call has ended as `outcome` says.
    pub open spec fn after(self, outcome: CallOutcome, text: String) -> SessionView {
        SessionView {
            config: self.config,
            phase: self.turn(outcome, text).phase,
            error: self.turn(outcome, text).error,
        }
    }

    /// The call a run is waiting on.
    pub open spec fn call(self) -> Option<GatewayCall> {
        match self.phase {
            PhaseView::Init => Some(GatewayCall::Init),
            PhaseView::DriverGate => Some(GatewayCall::SystemGetDriverVersion),
            PhaseView::DeviceCount => Some(GatewayCall::DeviceGetCount),
            PhaseView::DeviceHandle => Some(
                GatewayCall::DeviceGetHandleByIndex { index: self.config.device },
            ),
            PhaseView::DeviceName => Some(GatewayCall::DeviceGetName),
            PhaseView::InfoDriver => Some(GatewayCall::SystemGetDriverVersion),
            PhaseView::Info(info) => info.stage.call(),
            PhaseView::Resetting(reset) => reset.stage.call(),
            PhaseView::Overclocking(overclock) => overclock.stage.call(),
            PhaseView::Shutdown => Some(GatewayCall::Shutdown),
            PhaseView::Finished => None,
        }
    }

    /// Whether the state is one a run can be in: a run that is not over is
    /// for a request that can be carried out; an operation that is under way
    /// has a call to make, is itself in a state it can be in and, where it
    /// applies settings, applies those of the request; and an error is on
    /// record only on the way out.
    pub open spec fn consistent(self) -> bool {
        &&& self.phase !is Finished ==> self.config.acceptable()
        &&& self.phase matches PhaseView::Info(info) ==> info.stage !is Finished
        &&& self.phase matches PhaseView::Resetting(reset) ==> reset.stage !is Finished
            && reset.consistent()
        &&& self.phase matches PhaseView::Overclocking(overclock) ==> overclock.stage !is Finished
            && overclock.consistent() && overclock.config == self.config
        &&& self.error is Some ==> self.phase is Shutdown || self.phase is Finished
    }

    /// How the run ended, once it is over.
    pub open spec fn result(self) -> Option<Result<(), AppError>> {
        if self.phase is Finished {
            match self.error {
                Some(error) => Some(Err(error)),
                None => Some(Ok(())),
            }
        } else {
            None
        }
    }
}

/// Where a run stands.
#[derive(Debug)]
enum Phase {
    Init,
    DriverGate,
    DeviceCount,
    DeviceHandle,
    DeviceName,
    InfoDriver,
    Info(InfoQuery),
    Resetting(Reset),
    Overclocking(Overclock),
    Shutdown,
    Finished,
}

impl View for Phase {
    type V = PhaseView;

    closed spec fn view(&self) -> PhaseView {
        match self {
            Phase::Init => PhaseView::Init,
            Phase::DriverGate => PhaseView::DriverGate,
            Phase::DeviceCount => PhaseView::DeviceCount,
            Phase::DeviceHandle => PhaseView::DeviceHandle,
            Phase::DeviceName => PhaseView::DeviceName,
            Phase::InfoDriver => PhaseView::InfoDriver,
            Phase::Info(info) => PhaseView::Info(info@),
            Phase::Resetting(reset) => PhaseView::Resetting(reset@),
            Phase::Overclocking(overclock) => PhaseView::Overclocking(overclock@),
            Phase::Shutdown => PhaseView::Shutdown,
            Phase::Finished => PhaseView::Finished,
        }
    }
}

/// What one transition brings about.
struct Step {
    phase: Phase,
    error: Option<AppError>,
    reports: Vec<Report>,
}

impl View for Step {
    type V = Turn;

    closed spec fn view(&self) -> Turn {
        Turn { phase: self.phase@, error: self.error, reports: self.reports@ }
    }
}

/// A run in progress.
#[derive(Debug)]
pub struct Session {
    config: Config,
    phase: Phase,
    error: Option<AppError>,
}

impl View for Session {
    type V = SessionView;

    closed spec fn view(&self) -> SessionView {
        SessionView { config: self.config, phase: self.phase@, error: self.error }
    }
}

/// Notices of the operation as reports of the run.
fn to_reports(notices: Vec<Notice>) -> (reports: Vec<Report>)
    ensures
        reports@ == as_reports(notices@),
{
    let mut reports: Vec<Report> = Vec::new();
    let mut i: usize = 0;
    while i < notices.len()
        invariant
            i <= notices@.len(),
            reports@ == as_reports(notices@.take(i as int)),
        decreases notices@.len() - i,
    {
        reports.push(Report::Step(notices[i]));
        assert(reports@ =~= as_reports(notices@.take(i + 1)));
        i += 1;
    }
    assert(notices@.take(i as int) =~= notices@);
    reports
}

/// The step that ends the operation early.
fn give_up(error: AppError) -> (step: Step)
    ensures
        step@ == abandon(error),
{
    Step { phase: Phase::Shutdown, error: Some(error), reports: Vec::new() }
}

/// The step that moves on to `phase` with nothing to tell.
fn move_on(phase: Phase) -> (step: Step)
    ensures
        step@ == proceed(phase@),
{
    Step { phase, error: None, reports: Vec::new() }
}

/// The error of a result that is one.
fn error_of(result: Option<Result<(), AppError>>) -> (error: Option<AppError>)
    ensures
        error == (match result {
            Some(Err(error)) => Some(error),
            _ => None::<AppError>,
        }),
{
    match result {
        Some(Err(error)) => Some(error),
        _ => None,
    }
}

fn reset_step(reset: Reset, notices: Vec<Notice>) -> (step: Step)
    ensures
        step@ == reset_turn(reset@, notices@),
{
    let reports = to_reports(notices);
    if reset.finished() {
        Step { phase: Phase::Shutdown, error: error_of(reset.result()), reports }
    } else {
        Step { phase: Phase::Resetting(reset), error: None, reports }
    }
}

fn overclock_step(overclock: Overclock, notices: Vec<Notice>) -> (step: Step)
    ensures
        step@ == overclock_turn(overclock@, notices@),
{
    let reports = to_reports(notices);
    if overclock.finished() {
        Step { phase: Phase::Shutdown, error: error_of(overclock.result()), reports }
    } else {
        Step { phase: Phase::Overclocking(overclock), error: None, reports }
    }
}

fn info_step(info: InfoQuery) -> (step: Step)
    ensures
        step@ == info_turn(info@),
{
    match info.result() {
        None => move_on(Phase::Info(info)),
        Some(Err(cause)) => give_up(AppError::new("info", cause)),
        Some(Ok(())) => {
            let mut reports: Vec<Report> = Vec::new();
            reports.push(Report::Device(info.into_report()));
            Step { phase: Phase::Shutdown, error: None, reports }
        },
    }
}

/// The step that begins the operation `config` asks for.
fn operation_step(config: &Config) -> (step: Step)
    ensures
        step@ == begin_operation(*config),
        step@.phase matches PhaseView::Resetting(reset) ==> reset.consistent(),
        step@.phase matches PhaseView::Overclocking(overclock) ==> overclock.consistent(),
{
    match config.operation() {
        Operation::Info => move_on(Phase::InfoDriver),
        Operation::Reset { dry_run } => {
            let (reset, notices) = reset_gpu_settings(dry_run);
            assert(reset@ == (if dry_run {
                ResetView { stage: ResetStage::Finished, records: Seq::<StepRecord>::empty() }
            } else {
                ResetView::started()
            }));
            reset_step(reset, notices)
        },
        Operation::Overclock => {
            let (overclock, notices) = apply(config);
            assert(overclock@ == OverclockView::started(*config));
            overclock_step(overclock, notices)
        },
    }
}

/// Begins a run for `config` in a process of user `uid`.
///
/// If the request cannot be carried out, the run is over at once with an
/// invalid argument as its error. If the operation changes settings and the
/// process is not privileged, the run is over at once with the lack of
/// permission as its error. Neither makes a single call. Otherwise the run
/// starts by bringing the library up.
pub fn run(config: &Config, uid: u32) -> (session: Session)
    ensures
        session@ == SessionView::started(*config, uid),
        session@.consistent(),
{
    if config.validate().is_err() {
        return Session {
            config: *config,
            phase: Phase::Finished,
            error: Some(AppError::new("cli", NvmlError::InvalidArgument)),
        };
    }
    if config.operation().modifies_gpu() {
        if let Err(cause) = check_system_for_modification(uid) {
            return Session {
                config: *config,
                phase: Phase::Finished,
                error: Some(AppError::new("nvoc", cause)),
            };
        }
    }
    Session { config: *config, phase: Phase::Init, error: None }
}

impl Session {
    #[verifier::type_invariant]
    spec fn is_consistent(self) -> bool {
        self@.consistent()
    }

    /// The request the run is for.
    pub fn config(&self) -> (config: &Config)
        ensures
            *config == self@.config,
    {
        &self.config
    }

    /// The call to make next, or `None` when the run is over.
    pub fn pending(&self) -> (call: Option<GatewayCall>)
        ensures
            call == self@.call(),
            call is None <==> self@.phase is Finished,
            self@.consistent(),
    {
        proof {
            use_type_invariant(self);
        }
        match &self.phase {
            Phase::Init => Some(GatewayCall::Init),
            Phase::DriverGate => Some(GatewayCall::SystemGetDriverVersion),
            Phase::DeviceCount => Some(GatewayCall::DeviceGetCount),
            Phase::DeviceHandle => Some(
                GatewayCall::DeviceGetHandleByIndex { index: self.config.device },
            ),
            Phase::DeviceName => Some(GatewayCall::DeviceGetName),
            Phase::InfoDriver => Some(GatewayCall::SystemGetDriverVersion),
            Phase::Info(info) => info.pending(),
            Phase::Resetting(reset) => reset.pending(),
            Phase::Overclocking(overclock) => overclock.pending(),
            Phase::Shutdown => Some(GatewayCall::Shutdown),
            Phase::Finished => None,
        }
    }

    /// Whether the run is over.
    pub fn finished(&self) -> (over: bool)
        ensures
            over == self@.phase is Finished,
    {
        match &self.phase {
            Phase::Finished => true,
            _ => false,
        }
    }

    /// Takes in what came of the pending call, with `text` as its text
    /// output, and moves on. Returns the run in its next state and what to
    /// tell the user now.
    ///
    /// Once the run is over, an outcome changes nothing.
    pub fn advance(self, outcome: CallOutcome, text: String) -> (moved: (Session, Vec<Report>))
        ensures
            moved.0@ == self@.after(outcome, text),
            moved.1@ == self@.turn(outcome, text).reports,
            moved.0@.consistent(),
    {
        proof {
            use_type_invariant(&self);
        }
        let Session { config, phase, error } = self;
        let step = match phase {
            Phase::Init => match outcome.check() {
                Err(cause) => Step {
                    phase: Phase::Finished,
                    error: Some(AppError::new("init", cause)),
                    reports: Vec::new(),
                },
                Ok(()) => move_on(Phase::DriverGate),
            },
            Phase::DriverGate => match outcome.check() {
                Err(_) => move_on(Phase::DeviceCount),
                Ok(()) => match init_nvml(text.as_str()) {
                    DriverVerdict::TooOld => {
                        let mut reports: Vec<Report> = Vec::new();
                        reports.push(
                            Report::DriverTooOld {
                                version: text,
                                minimum: hardware::MIN_DRIVER_VERSION,
                            },
                        );
                        Step {
                            phase: Phase::Shutdown,
                            error: Some(AppError::printed("driver")),
                            reports,
                        }
                    },
                    DriverVerdict::Accepted => {
                        let mut reports: Vec<Report> = Vec::new();
                        reports.push(Report::DriverAccepted { version: text });
                        Step { phase: Phase::DeviceCount, error: None, reports }
                    },
                    DriverVerdict::Unrecognized => move_on(Phase::DeviceCount),
                },
            },
            Phase::DeviceCount => match outcome.reading() {
                Err(cause) => give_up(AppError::new("device", cause)),
                Ok(device_count) => match get_device(config.device, device_count) {
                    Ok(_) => move_on(Phase::DeviceHandle),
                    Err(cause) => give_up(AppError::new("device", cause)),
                },
            },
            Phase::DeviceHandle => match outcome.check() {
                Err(cause) => give_up(AppError::new("device", cause)),
                Ok(()) => move_on(Phase::DeviceName),
            },
            Phase::DeviceName => {
                let device_name = match outcome.check() {
                    Err(cause) => Err(cause),
                    Ok(()) => Ok(text.as_str()),
                };
                match validate_blackwell_architecture(device_name) {
                    Err(cause) => give_up(AppError::new("gpu", cause)),
                    Ok(()) => operation_step(&config),
                }
            },
            Phase::InfoDriver => match outcome.check() {
                Err(cause) => give_up(AppError::new("driver", cause)),
                Ok(()) => {
                    let mut reports: Vec<Report> = Vec::new();
                    reports.push(Report::DriverVersion { version: text });
                    Step { phase: Phase::Info(show_gpu_info(config.device)), error: None, reports }
                },
            },
            Phase::Info(info) => info_step(info.advance(outcome, text)),
            Phase::Resetting(reset) => {
                let (reset, notices) = reset.advance(outcome);
                reset_step(reset, notices)
            },
            Phase::Overclocking(overclock) => {
                let (overclock, notices) = overclock.advance(outcome);
                overclock_step(overclock, notices)
            },
            Phase::Shutdown => Step { phase: Phase::Finished, error, reports: Vec::new() },
            Phase::Finished => Step { phase: Phase::Finished, error, reports: Vec::new() },
        };
        let Step { phase, error, reports } = step;
        (Session { config, phase, error }, reports)
    }

    /// The error the run will end with, if one is on record.
    pub fn error(&self) -> (error: &Option<AppError>)
        ensures
            *error == self@.error,
    {
        &self.error
    }

    /// How the run ended, or `None` while a call is pending.
    pub fn into_result(self) -> (result: Option<Result<(), AppError>>)
        ensures
            result == self@.result(),
    {
        let Session { config: _, phase, error } = self;
        match phase {
            Phase::Finished => match error {
                Some(error) => Some(Err(error)),
                None => Some(Ok(())),
            },
            _ => None,
        }
    }
}

impl PhaseView {
    /// Whether the library is up in this phase and still to be torn down.
    pub open spec fn library_up(self) -> bool {
        !(self is Init || self is Shutdown || self is Finished)
    }

    /// Whether this phase belongs to an operation that changes settings.
    pub open spec fn changes_settings(self) -> bool {
        self is Resetting || self is Overclocking
    }
}

impl SessionView {
    /// The state after the answers handed back have been `answers`, in
    /// order, each the outcome of a call with its text output.
    pub open spec fn run(self, answers: Seq<(CallOutcome, String)>) -> SessionView
        decreases answers.len(),
    {
        if answers.len() == 0 {
            self
        } else {
            self.after(answers[0].0, answers[0].1).run(answers.drop_first())
        }
    }

    /// Whether nothing can come of the run that changes a setting: it is
    /// over, or it is for showing the device state and has not strayed from
    /// that.
    pub open spec fn harmless(self) -> bool {
        &&& !self.phase.changes_settings()
        &&& self.phase is Finished || self.config.selected() is Info
    }
}

/// A transition leads from one state a run can be in to another.
pub proof fn lemma_session_stays_consistent(state: SessionView, outcome: CallOutcome, text: String)
    requires
        state.consistent(),
    ensures
        state.after(outcome, text).consistent(),
        state.after(outcome, text).config == state.config,
{
    match state.phase {
        PhaseView::Resetting(reset) => {
            lemma_after_keeps_consistent(reset, outcome);
        },
        PhaseView::Overclocking(overclock) => {
            lemma_overclock_stays_consistent(overclock, outcome);
        },
        PhaseView::DeviceName => {
            lemma_enter_goes_forward(state.config, 0);
        },
        _ => {},
    }
}

/// A request that cannot be carried out, be it that it names nothing to do
/// or that its clock range is empty or upside down, is turned away before
/// any call is made; and settings are never applied from such a request.
pub proof fn lemma_request_gate(config: Config, uid: u32, state: SessionView)
    requires
        state.consistent(),
    ensures
        !config.acceptable() ==> SessionView::started(config, uid).call() is None
            && SessionView::started(config, uid).result() == Some(
            Err::<(), AppError>(failure_in("cli", NvmlError::InvalidArgument)),
        ),
        state.phase matches PhaseView::Overclocking(overclock) ==> overclock.config.clocks_ordered(),
{
}

/// Without privilege, a run for an operation that changes settings is over
/// before it makes a call, and ends with the lack of permission.
pub proof fn lemma_privilege_gate(config: Config, uid: u32)
    requires
        config.acceptable(),
        config.selected().modifies(),
        uid != 0,
    ensures
        SessionView::started(config, uid).call() is None,
        SessionView::started(config, uid).result() == Some(
            Err::<(), AppError>(failure_in("nvoc", NvmlError::NoPermission)),
        ),
{
}

/// Showing the device state needs no privilege: the run starts whatever the
/// user.
pub proof fn lemma_info_needs_no_privilege(config: Config, uid: u32)
    requires
        config.acceptable(),
        config.selected() is Info,
    ensures
        SessionView::started(config, uid).phase is Init,
        SessionView::started(config, uid).error is None,
{
}

/// An operation, reading the device state included, begins in one way only:
/// the device name was read and is that of a supported card.
pub proof fn lemma_architecture_gate(state: SessionView, outcome: CallOutcome, text: String)
    requires
        state.phase is Init || state.phase is DriverGate || state.phase is DeviceCount
            || state.phase is DeviceHandle || state.phase is DeviceName,
        ({
            let next = state.after(outcome, text).phase;
            next.changes_settings() || next is InfoDriver || next is Info
        }),
    ensures
        state.phase is DeviceName,
        outcome.succeeded(),
        architecture_of(uppercase_of(text@)) is Blackwell,
{
}

/// A call that writes is pending only while a reset or an application of
/// settings is under way, and never in a dry run of the latter.
pub proof fn lemma_writes_belong_to_operations(state: SessionView)
    requires
        state.consistent(),
        state.call() matches Some(call) && call.writes(),
    ensures
        state.phase.changes_settings(),
        state.phase matches PhaseView::Overclocking(overclock) ==> !overclock.config.dry_run,
{
}

/// No run of an unprivileged process ever has a call pending that writes,
/// whatever it is for and whatever answers it is given.
pub proof fn lemma_unprivileged_run_never_writes(
    config: Config,
    uid: u32,
    answers: Seq<(CallOutcome, String)>,
)
    requires
        uid != 0,
    ensures
        SessionView::started(config, uid).run(answers).call() matches Some(call)
            ==> !call.writes(),
{
    lemma_harmless_run_never_writes(SessionView::started(config, uid), answers);
}

/// A run from which nothing can come that changes a setting stays that way.
pub proof fn lemma_harmless_run_never_writes(
    state: SessionView,
    answers: Seq<(CallOutcome, String)>,
)
    requires
        state.harmless(),
    ensures
        state.run(answers).harmless(),
        state.run(answers).call() matches Some(call) ==> !call.writes(),
    decreases answers.len(),
{
    if answers.len() > 0 {
        lemma_harmless_run_never_writes(
            state.after(answers[0].0, answers[0].1),
            answers.drop_first(),
        );
    }
}

/// In a run for a dry-run request no call is ever pending that writes,
/// whatever the operation and whatever answers the run is given.
pub proof fn lemma_dry_run_never_writes(
    state: SessionView,
    answers: Seq<(CallOutcome, String)>,
)
    requires
        state.consistent(),
        state.config.dry_run,
        state.phase !is Resetting,
    ensures
        state.run(answers).call() matches Some(call) ==> !call.writes(),
        state.run(answers).phase !is Resetting,
    decreases answers.len(),
{
    if answers.len() > 0 {
        lemma_session_stays_consistent(state, answers[0].0, answers[0].1);
        lemma_dry_run_never_writes(state.after(answers[0].0, answers[0].1), answers.drop_first());
    }
}

/// A run started for a dry-run request never has a call pending that
/// writes.
pub proof fn lemma_dry_run_request_never_writes(
    config: Config,
    uid: u32,
    answers: Seq<(CallOutcome, String)>,
)
    requires
        config.dry_run,
    ensures
        SessionView::started(config, uid).run(answers).call() matches Some(call)
            ==> !call.writes(),
{
    lemma_dry_run_never_writes(SessionView::started(config, uid), answers);
}

/// The library is brought up at most once and torn down exactly once after
/// it came up: no transition leads back to the start; once the library is
/// up, the run cannot end except through the phase that tears it down, which
/// is the only one to ask for that call and is left for good with its one
/// answer, whatever the answer; and the error on record is the one the run
/// ends with.
pub proof fn lemma_teardown(state: SessionView, outcome: CallOutcome, text: String)
    ensures
        !(state.after(outcome, text).phase is Init),
        state.phase.library_up() ==> !(state.after(outcome, text).phase is Finished),
        state.call() == Some(GatewayCall::Shutdown) <==> state.phase is Shutdown,
        state.phase is Shutdown ==> state.after(outcome, text).phase is Finished
            && state.after(outcome, text).error == state.error,
        state.phase is Finished ==> state.after(outcome, text) == state,
        state.phase is Init && outcome.succeeded() ==> state.after(outcome, text).phase.library_up(),
        state.phase is Init && !outcome.succeeded() ==> state.after(outcome, text).phase is Finished,
{
    match state.phase {
        PhaseView::Info(info) => {
            assert(info.stage.call() != Some(GatewayCall::Shutdown));
        },
        PhaseView::Resetting(reset) => {
            assert(reset.stage.call() != Some(GatewayCall::Shutdown));
        },
        PhaseView::Overclocking(overclock) => {
            assert(overclock.stage.call() != Some(GatewayCall::Shutdown));
        },
        _ => {},
    }
}

impl SessionView {
    /// The calls that are made, in order, when the answers handed back are
    /// `answers`, one for each call, for as long as a call is pending.
    pub open spec fn calls(self, answers: Seq<(CallOutcome, String)>) -> Seq<GatewayCall>
        decreases answers.len(),
    {
        if answers.len() == 0 || self.phase is Finished {
            Seq::empty()
        } else {
            seq![self.call()->Some_0] + self.after(answers[0].0, answers[0].1).calls(
                answers.drop_first(),
            )
        }
    }
}

/// How often `call` is among `calls`.
pub open spec fn occurrences(calls: Seq<GatewayCall>, call: GatewayCall) -> nat
    decreases calls.len(),
{
    if calls.len() == 0 {
        0
    } else {
        (if calls[0] == call { 1nat } else { 0nat }) + occurrences(calls.drop_first(), call)
    }
}

/// In a run that has come to its end, the library was torn down exactly
/// once if it had come up, and not at all if it had not. It was brought up
/// no more than once.
pub proof fn lemma_torn_down_once(state: SessionView, answers: Seq<(CallOutcome, String)>)
    requires
        state.consistent(),
        state.run(answers).phase is Finished,
    ensures
        occurrences(state.calls(answers), GatewayCall::Shutdown) == (if state.phase.library_up()
            || state.phase is Shutdown || (state.phase is Init && answers[0].0.succeeded()) {
            1nat
        } else {
            0nat
        }),
        occurrences(state.calls(answers), GatewayCall::Init) == (if state.phase is Init {
            1nat
        } else {
            0nat
        }),
    decreases answers.len(),
{
    let calls = state.calls(answers);
    if answers.len() == 0 || state.phase is Finished {
        assert(calls.len() == 0);
    } else {
        let next = state.after(answers[0].0, answers[0].1);
        let rest = next.calls(answers.drop_first());
        lemma_session_stays_consistent(state, answers[0].0, answers[0].1);
        lemma_teardown(state, answers[0].0, answers[0].1);
        lemma_torn_down_once(next, answers.drop_first());
        assert(calls.drop_first() =~= rest);
        assert(calls[0] == state.call()->Some_0);
        match state.phase {
            PhaseView::Info(info) => {
                assert(info.stage.call() != Some(GatewayCall::Init));
            },
            PhaseView::Resetting(reset) => {
                assert(reset.stage.call() != Some(GatewayCall::Init));
            },
            PhaseView::Overclocking(overclock) => {
                assert(overclock.stage.call() != Some(GatewayCall::Init));
            },
            _ => {},
        }
    }
}

/// A run for a request that can be carried out, started by the superuser or
/// for showing the device state, that has come to its end: the library was
/// brought up once, and torn down once if and only if it came up.
pub proof fn lemma_run_brackets_the_library(
    config: Config,
    uid: u32,
    answers: Seq<(CallOutcome, String)>,
)
    requires
        config.acceptable(),
        uid == 0 || config.selected() is Info,
        SessionView::started(config, uid).run(answers).phase is Finished,
    ensures
        occurrences(SessionView::started(config, uid).calls(answers), GatewayCall::Init) == 1,
        occurrences(SessionView::started(config, uid).calls(answers), GatewayCall::Shutdown) == (
        if answers[0].0.succeeded() {
            1nat
        } else {
            0nat
        }),
{
    lemma_torn_down_once(SessionView::started(config, uid), answers);
}

} // verus!
