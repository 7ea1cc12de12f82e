use nvoc::error::AppError;
use nvoc::gpu::notice::Notice;
use nvoc::gpu::reset::{reset_gpu_settings, Reset, ResetStage, ResetStep, StepRecord};
use nvoc::nvml::{
    CallOutcome, GatewayCall, NvmlClockOffset, NvmlClockType, NvmlError, NvmlPerfState,
};

const PARK: GatewayCall =
    GatewayCall::DeviceSetGpuLockedClocks { min_gpu_clock: 200, max_gpu_clock: 250 };
const RELEASE_GPU: GatewayCall = GatewayCall::DeviceResetGpuLockedClocks;
const RELEASE_MEMORY: GatewayCall = GatewayCall::DeviceResetMemoryLockedClocks;
const CLEAR_MEMORY_OFFSET: GatewayCall = GatewayCall::DeviceSetMemoryVfOffset { offset: 0 };
const READ_DEFAULT: GatewayCall = GatewayCall::DeviceGetPowerDefaultLimit;

fn clear_graphics_offset() -> GatewayCall {
    GatewayCall::DeviceSetClockOffset {
        request: NvmlClockOffset::new_v1(NvmlClockType::Graphics, NvmlPerfState::P0, 0),
    }
}

fn record(step: ResetStep, succeeded: bool) -> StepRecord {
    StepRecord { step, succeeded }
}

/// Runs a reset against a device that answers each call as `answer` says.
fn drive(
    dry_run: bool,
    answer: &dyn Fn(&GatewayCall) -> CallOutcome,
) -> (Vec<GatewayCall>, Vec<Notice>, Reset) {
    let (mut reset, mut notices) = reset_gpu_settings(dry_run);
    let mut calls = Vec::new();
    while let Some(call) = reset.pending() {
        assert!(calls.len() < 20, "the reset does not end");
        let outcome = answer(&call);
        calls.push(call);
        let (next, told) = reset.advance(outcome);
        reset = next;
        notices.extend(told);
    }
    (calls, notices, reset)
}

fn healthy(call: &GatewayCall) -> CallOutcome {
    match call {
        GatewayCall::DeviceGetPowerDefaultLimit => CallOutcome::with_value(575_000),
        _ => CallOutcome::success(),
    }
}

#[test]
fn a_reset_that_succeeds_makes_seven_calls_in_order() {
    let (calls, notices, reset) = drive(false, &healthy);
    assert_eq!(
        calls,
        vec![
            PARK,
            RELEASE_GPU,
            RELEASE_MEMORY,
            clear_graphics_offset(),
            CLEAR_MEMORY_OFFSET,
            READ_DEFAULT,
            GatewayCall::DeviceSetPowerLimit { limit_mw: 575_000 },
        ]
    );
    assert_eq!(notices, vec![Notice::ResetDone]);
    assert!(reset.finished());
    assert_eq!(reset.stage(), ResetStage::Finished);
    assert_eq!(reset.result(), Some(Ok(())));
    assert!(reset.outcome().success());
    assert_eq!(
        *reset.outcome().steps(),
        vec![
            record(ResetStep::IdleClocks, true),
            record(ResetStep::GpuLockedClocks, true),
            record(ResetStep::MemoryLockedClocks, true),
            record(ResetStep::GraphicsOffset, true),
            record(ResetStep::MemoryVfOffset, true),
            record(ResetStep::PowerLimit, true),
        ]
    );
    assert_eq!(reset.outcome().failed(), Vec::<ResetStep>::new());
    assert_eq!(reset.outcome().completed().len(), 6);
}

#[test]
fn the_default_limit_is_written_back_as_it_was_read() {
    let (calls, _, _) = drive(false, &|call| match call {
        GatewayCall::DeviceGetPowerDefaultLimit => CallOutcome::with_value(450_123),
        _ => CallOutcome::success(),
    });
    assert_eq!(calls[6], GatewayCall::DeviceSetPowerLimit { limit_mw: 450_123 });
}

#[test]
fn when_parking_fails_the_release_is_not_attempted() {
    let (calls, notices, reset) = drive(false, &|call| match call {
        GatewayCall::DeviceSetGpuLockedClocks { .. } => CallOutcome::returned(3),
        other => healthy(other),
    });
    assert!(!calls.contains(&RELEASE_GPU));
    assert_eq!(
        calls,
        vec![
            PARK,
            RELEASE_MEMORY,
            clear_graphics_offset(),
            CLEAR_MEMORY_OFFSET,
            READ_DEFAULT,
            GatewayCall::DeviceSetPowerLimit { limit_mw: 575_000 },
        ]
    );
    assert_eq!(
        *reset.outcome().steps(),
        vec![
            record(ResetStep::IdleClocks, false),
            record(ResetStep::GpuLockedClocks, false),
            record(ResetStep::MemoryLockedClocks, true),
            record(ResetStep::GraphicsOffset, true),
            record(ResetStep::MemoryVfOffset, true),
            record(ResetStep::PowerLimit, true),
        ]
    );
    assert_eq!(
        notices,
        vec![
            Notice::ResetStepFailed { step: ResetStep::IdleClocks, cause: NvmlError::NotSupported },
            Notice::ResetStepSkipped { step: ResetStep::GpuLockedClocks },
            Notice::ResetIncomplete,
        ]
    );
    assert_eq!(reset.result(), Some(Err(AppError::printed("reset"))));
    assert_eq!(
        reset.outcome().failed(),
        vec![ResetStep::IdleClocks, ResetStep::GpuLockedClocks]
    );
    assert_eq!(
        reset.outcome().completed(),
        vec![
            ResetStep::MemoryLockedClocks,
            ResetStep::GraphicsOffset,
            ResetStep::MemoryVfOffset,
            ResetStep::PowerLimit
        ]
    );
}

#[test]
fn when_parking_fails_the_other_steps_are_attempted_even_if_they_fail_too() {
    let (calls, _, reset) = drive(false, &|_| CallOutcome::returned(15));
    assert_eq!(
        calls,
        vec![PARK, RELEASE_MEMORY, clear_graphics_offset(), CLEAR_MEMORY_OFFSET, READ_DEFAULT]
    );
    assert!(!reset.outcome().success());
    assert_eq!(reset.outcome().completed(), Vec::<ResetStep>::new());
    assert_eq!(reset.outcome().failed().len(), 6);
    assert_eq!(reset.result(), Some(Err(AppError::printed("reset"))));
}

#[test]
fn one_failure_fails_the_reset_and_takes_nothing_back() {
    let full = vec![
        PARK,
        RELEASE_GPU,
        RELEASE_MEMORY,
        clear_graphics_offset(),
        CLEAR_MEMORY_OFFSET,
        READ_DEFAULT,
        GatewayCall::DeviceSetPowerLimit { limit_mw: 575_000 },
    ];
    let steps = [
        (RELEASE_GPU, ResetStep::GpuLockedClocks),
        (RELEASE_MEMORY, ResetStep::MemoryLockedClocks),
        (clear_graphics_offset(), ResetStep::GraphicsOffset),
        (CLEAR_MEMORY_OFFSET, ResetStep::MemoryVfOffset),
        (GatewayCall::DeviceSetPowerLimit { limit_mw: 575_000 }, ResetStep::PowerLimit),
    ];
    for (failing, step) in steps {
        let (calls, notices, reset) = drive(false, &|call| {
            if *call == failing {
                CallOutcome::returned(4)
            } else {
                healthy(call)
            }
        });
        assert_eq!(calls, full, "{:?}", step);
        assert_eq!(reset.result(), Some(Err(AppError::printed("reset"))));
        assert_eq!(reset.outcome().failed(), vec![step]);
        assert_eq!(reset.outcome().completed().len(), 5);
        assert_eq!(
            notices[0],
            Notice::ResetStepFailed { step, cause: NvmlError::NoPermission }
        );
        assert_eq!(*notices.last().unwrap(), Notice::ResetIncomplete);
    }
}

#[test]
fn a_failed_graphics_offset_comes_with_a_hint() {
    let (_, notices, _) = drive(false, &|call| match call {
        GatewayCall::DeviceSetClockOffset { .. } => CallOutcome::returned(3),
        other => healthy(other),
    });
    assert_eq!(
        notices,
        vec![
            Notice::ResetStepFailed {
                step: ResetStep::GraphicsOffset,
                cause: NvmlError::NotSupported
            },
            Notice::GraphicsOffsetHint,
            Notice::ResetIncomplete,
        ]
    );
}

#[test]
fn a_default_limit_that_cannot_be_read_is_not_written() {
    let (calls, notices, reset) = drive(false, &|call| match call {
        GatewayCall::DeviceGetPowerDefaultLimit => {
            CallOutcome::unavailable(NvmlError::FunctionNotFound)
        }
        other => healthy(other),
    });
    assert_eq!(calls.len(), 6);
    assert_eq!(calls[5], READ_DEFAULT);
    assert_eq!(reset.outcome().failed(), vec![ResetStep::PowerLimit]);
    assert_eq!(
        notices,
        vec![
            Notice::ResetStepFailed {
                step: ResetStep::PowerLimit,
                cause: NvmlError::FunctionNotFound
            },
            Notice::ResetIncomplete,
        ]
    );
}

#[test]
fn a_failure_is_told_when_it_happens() {
    let (reset, told) = reset_gpu_settings(false);
    assert!(told.is_empty());
    let (reset, told) = reset.advance(CallOutcome::success());
    assert!(told.is_empty());
    assert_eq!(reset.stage(), ResetStage::GpuLockedClocks);
    let (reset, told) = reset.advance(CallOutcome::returned(10));
    assert_eq!(
        told,
        vec![Notice::ResetStepFailed { step: ResetStep::GpuLockedClocks, cause: NvmlError::Timeout }]
    );
    assert_eq!(reset.stage(), ResetStage::MemoryLockedClocks);
    assert_eq!(reset.result(), None);
    assert!(!reset.outcome().success());
}

#[test]
fn a_dry_reset_makes_no_call() {
    let (calls, notices, reset) = drive(true, &|_| panic!("a dry run made a call"));
    assert!(calls.is_empty());
    assert_eq!(notices, vec![Notice::DryReset]);
    assert!(reset.finished());
    assert_eq!(reset.pending(), None);
    assert_eq!(reset.result(), Some(Ok(())));
    assert!(reset.outcome().steps().is_empty());
}

#[test]
fn a_reset_that_is_over_stays_as_it_is() {
    let (_, _, reset) = drive(false, &healthy);
    let (reset, told) = reset.advance(CallOutcome::returned(4));
    assert!(told.is_empty());
    assert!(reset.finished());
    assert_eq!(reset.result(), Some(Ok(())));
    assert_eq!(reset.outcome().steps().len(), 6);
}

#[test]
fn names_of_the_steps() {
    assert_eq!(ResetStep::IdleClocks.name(), "Idle clock range");
    assert_eq!(ResetStep::GpuLockedClocks.name(), "GPU locked clocks");
    assert_eq!(ResetStep::MemoryLockedClocks.name(), "Memory locked clocks");
    assert_eq!(ResetStep::GraphicsOffset.name(), "Graphics offset");
    assert_eq!(ResetStep::MemoryVfOffset.name(), "Memory VF offset");
    assert_eq!(ResetStep::PowerLimit.name(), "Power limit");
}

#[test]
fn which_notices_are_warnings() {
    assert!(Notice::ResetIncomplete.is_warning());
    assert!(Notice::GraphicsOffsetHint.is_warning());
    assert!(Notice::ResetStepSkipped { step: ResetStep::GpuLockedClocks }.is_warning());
    assert!(
        Notice::ResetStepFailed { step: ResetStep::PowerLimit, cause: NvmlError::Timeout }
            .is_warning()
    );
    assert!(!Notice::ResetDone.is_warning());
    assert!(!Notice::DryReset.is_warning());
    assert!(!Notice::ClocksSet.is_warning());
    assert!(!Notice::DryPowerLimit { percentage: 1, watts: 2 }.is_warning());
}
