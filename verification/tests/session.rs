use nvoc::cli::Config;
use nvoc::error::AppError;
use nvoc::gpu::domain::power::PowerInfo;
use nvoc::gpu::info::{show_gpu_info, GpuInfo, InfoStage};
use nvoc::gpu::notice::Notice;
use nvoc::nvml::{CallOutcome, GatewayCall, GpuArchitecture, NvmlClockType, NvmlError};
use nvoc::session::{run, Report};

fn nothing() -> Config {
    Config {
        clocks: None,
        graphics_offset: None,
        memory_offset: None,
        power_limit: None,
        device: 0,
        dry_run: false,
        reset: false,
        info: false,
    }
}

/// A machine with one RTX 5090 under driver 570.
fn healthy(call: &GatewayCall) -> (CallOutcome, String) {
    let silent = |outcome: CallOutcome| (outcome, String::new());
    match call {
        GatewayCall::SystemGetDriverVersion => (CallOutcome::success(), "570.86.16".to_string()),
        GatewayCall::DeviceGetCount => silent(CallOutcome::with_value(1)),
        GatewayCall::DeviceGetName => {
            (CallOutcome::success(), "NVIDIA GeForce RTX 5090".to_string())
        }
        GatewayCall::DeviceGetClockInfo { clock_type: NvmlClockType::Graphics } => {
            silent(CallOutcome::with_value(2407))
        }
        GatewayCall::DeviceGetClockInfo { clock_type: NvmlClockType::Memory } => {
            silent(CallOutcome::with_value(14001))
        }
        GatewayCall::DeviceGetClockOffsets { .. } => silent(CallOutcome::with_offset(-25)),
        GatewayCall::DeviceGetTemperature => silent(CallOutcome::with_value(41)),
        GatewayCall::DeviceGetPowerUsage => silent(CallOutcome::with_value(88_700)),
        GatewayCall::DeviceGetPowerLimit => silent(CallOutcome::with_value(500_000)),
        GatewayCall::DeviceGetPowerDefaultLimit => silent(CallOutcome::with_value(575_000)),
        GatewayCall::DeviceGetPowerLimitConstraints => {
            silent(CallOutcome::with_range(400_000, 660_000))
        }
        _ => silent(CallOutcome::success()),
    }
}

/// Runs a request to its end on a machine that answers as `answer` says.
fn drive(
    config: &Config,
    uid: u32,
    answer: &dyn Fn(&GatewayCall) -> (CallOutcome, String),
) -> (Vec<GatewayCall>, Vec<Report>, Result<(), AppError>) {
    let mut session = run(config, uid);
    let mut calls = Vec::new();
    let mut reports = Vec::new();
    while let Some(call) = session.pending() {
        assert!(calls.len() < 40, "the run does not end");
        let (outcome, text) = answer(&call);
        calls.push(call);
        let (next, told) = session.advance(outcome, text);
        session = next;
        reports.extend(told);
    }
    assert!(session.finished());
    (calls, reports, session.into_result().unwrap())
}

const GATES: [GatewayCall; 5] = [
    GatewayCall::Init,
    GatewayCall::SystemGetDriverVersion,
    GatewayCall::DeviceGetCount,
    GatewayCall::DeviceGetHandleByIndex { index: 0 },
    GatewayCall::DeviceGetName,
];

fn shutdowns(calls: &[GatewayCall]) -> usize {
    calls.iter().filter(|call| **call == GatewayCall::Shutdown).count()
}

#[test]
fn without_privilege_a_changing_run_makes_no_call() {
    for config in [
        Config { reset: true, ..nothing() },
        Config { reset: true, dry_run: true, ..nothing() },
        Config { power_limit: Some(90), ..nothing() },
        Config { clocks: Some((1, 2)), dry_run: true, ..nothing() },
    ] {
        let session = run(&config, 1000);
        assert!(session.finished());
        assert_eq!(session.pending(), None);
        assert_eq!(session.into_result(), Some(Err(AppError::new("nvoc", NvmlError::NoPermission))));
    }
}

#[test]
fn showing_the_state_needs_no_privilege() {
    let config = Config { info: true, ..nothing() };
    let (calls, reports, result) = drive(&config, 1000, &healthy);
    assert_eq!(result, Ok(()));
    assert_eq!(calls[..5], GATES);
    assert_eq!(*calls.last().unwrap(), GatewayCall::Shutdown);
    assert!(calls.iter().all(|call| !call.is_write()));
    assert_eq!(
        reports,
        vec![
            Report::DriverAccepted { version: "570.86.16".to_string() },
            Report::DriverVersion { version: "570.86.16".to_string() },
            Report::Device(GpuInfo {
                index: 0,
                name: Some("NVIDIA GeForce RTX 5090".to_string()),
                architecture: GpuArchitecture::Blackwell,
                clock_offset_version: 0x1000018,
                graphics_clock: Some(2407),
                graphics_offset: Some(-25),
                memory_clock: Some(14001),
                temperature: Some(41),
                power_watts: Some(88),
                power: Some(PowerInfo {
                    limit_watts: 500,
                    default_watts: 575,
                    min_watts: 400,
                    max_watts: 660
                }),
            }),
        ]
    );
}

#[test]
fn showing_the_state_is_still_held_to_the_architecture_gate() {
    let config = Config { info: true, ..nothing() };
    let (calls, reports, result) = drive(&config, 0, &|call| match call {
        GatewayCall::DeviceGetName => (CallOutcome::success(), "NVIDIA GeForce RTX 4090".to_string()),
        other => healthy(other),
    });
    assert_eq!(result, Err(AppError::new("gpu", NvmlError::NotSupported)));
    assert_eq!(calls.len(), 6);
    assert_eq!(calls[5], GatewayCall::Shutdown);
    assert_eq!(reports.len(), 1);
}

#[test]
fn a_full_reset_runs_behind_the_gates_and_ends_with_the_teardown() {
    let config = Config { reset: true, ..nothing() };
    let (calls, reports, result) = drive(&config, 0, &healthy);
    assert_eq!(result, Ok(()));
    assert_eq!(calls.len(), 5 + 7 + 1);
    assert_eq!(calls[..5], GATES);
    assert_eq!(
        calls[5],
        GatewayCall::DeviceSetGpuLockedClocks { min_gpu_clock: 200, max_gpu_clock: 250 }
    );
    assert_eq!(calls[12], GatewayCall::Shutdown);
    assert_eq!(shutdowns(&calls), 1);
    assert_eq!(
        reports,
        vec![
            Report::DriverAccepted { version: "570.86.16".to_string() },
            Report::Step(Notice::ResetDone),
        ]
    );
}

#[test]
fn a_failed_reset_ends_with_the_error_that_is_marked_as_shown() {
    let config = Config { reset: true, ..nothing() };
    let (calls, reports, result) = drive(&config, 0, &|call| match call {
        GatewayCall::DeviceResetMemoryLockedClocks => {
            (CallOutcome::returned(3), String::new())
        }
        other => healthy(other),
    });
    let error = result.unwrap_err();
    assert_eq!(error, AppError::printed("reset"));
    assert_eq!(error.report(), None);
    assert_eq!(nvoc::error::exit_status(&Err(error)), 1);
    assert_eq!(calls.len(), 13);
    assert_eq!(shutdowns(&calls), 1);
    assert_eq!(*reports.last().unwrap(), Report::Step(Notice::ResetIncomplete));
}

#[test]
fn a_dry_reset_passes_the_gates_and_writes_nothing() {
    let config = Config { reset: true, dry_run: true, ..nothing() };
    let (calls, reports, result) = drive(&config, 0, &healthy);
    assert_eq!(result, Ok(()));
    assert_eq!(calls[..5], GATES);
    assert_eq!(calls[5..], [GatewayCall::Shutdown]);
    assert_eq!(*reports.last().unwrap(), Report::Step(Notice::DryReset));
}

#[test]
fn settings_are_applied_behind_the_gates() {
    let config = Config { clocks: Some((210, 2800)), power_limit: Some(104), ..nothing() };
    let (calls, reports, result) = drive(&config, 0, &healthy);
    assert_eq!(result, Ok(()));
    assert_eq!(calls[..5], GATES);
    assert_eq!(
        calls[5],
        GatewayCall::DeviceSetGpuLockedClocks { min_gpu_clock: 210, max_gpu_clock: 2800 }
    );
    assert_eq!(calls[calls.len() - 2], GatewayCall::DeviceSetPowerLimit { limit_mw: 598_000 });
    assert_eq!(*calls.last().unwrap(), GatewayCall::Shutdown);
    assert_eq!(shutdowns(&calls), 1);
    assert_eq!(
        reports[1..],
        [
            Report::Step(Notice::ClocksSet),
            Report::Step(Notice::PowerLimitSet { percentage: 104, watts: 598 }),
        ]
    );
}

#[test]
fn a_failed_setting_ends_the_run_through_the_teardown() {
    let config = Config { clocks: Some((210, 2800)), graphics_offset: Some(50), power_limit: Some(80), ..nothing() };
    let (calls, _, result) = drive(&config, 0, &|call| match call {
        GatewayCall::DeviceSetGpuLockedClocks { .. } => (CallOutcome::returned(4), String::new()),
        other => healthy(other),
    });
    assert_eq!(result, Err(AppError::new("clocks", NvmlError::NoPermission)));
    assert_eq!(calls.len(), 7);
    assert_eq!(calls[6], GatewayCall::Shutdown);
}

#[test]
fn an_unsupported_card_is_never_written_to() {
    for config in [Config { reset: true, ..nothing() }, Config { power_limit: Some(90), ..nothing() }] {
        let (calls, _, result) = drive(&config, 0, &|call| match call {
            GatewayCall::DeviceGetName => (CallOutcome::success(), "Tesla V100".to_string()),
            other => healthy(other),
        });
        assert_eq!(result, Err(AppError::new("gpu", NvmlError::NotSupported)));
        assert!(calls.iter().all(|call| !call.is_write()));
        assert_eq!(*calls.last().unwrap(), GatewayCall::Shutdown);
    }
}

#[test]
fn a_name_that_cannot_be_read_fails_the_gate_with_its_cause() {
    let config = Config { reset: true, ..nothing() };
    let (calls, _, result) = drive(&config, 0, &|call| match call {
        GatewayCall::DeviceGetName => (CallOutcome::returned(15), "RTX 5090".to_string()),
        other => healthy(other),
    });
    assert_eq!(result, Err(AppError::new("gpu", NvmlError::GpuIsLost)));
    assert_eq!(calls.len(), 6);
}

#[test]
fn a_failed_start_is_not_torn_down() {
    let config = Config { info: true, ..nothing() };
    let (calls, reports, result) = drive(&config, 0, &|call| match call {
        GatewayCall::Init => (CallOutcome::unavailable(NvmlError::LibraryNotFound), String::new()),
        other => healthy(other),
    });
    assert_eq!(calls, vec![GatewayCall::Init]);
    assert!(reports.is_empty());
    assert_eq!(result, Err(AppError::new("init", NvmlError::LibraryNotFound)));

    let (calls, _, result) = drive(&config, 0, &|call| match call {
        GatewayCall::Init => (CallOutcome::returned(5), String::new()),
        other => healthy(other),
    });
    assert_eq!(calls, vec![GatewayCall::Init]);
    assert_eq!(result, Err(AppError::new("init", NvmlError::AlreadyInitialized)));
}

#[test]
fn a_driver_that_is_too_old_ends_the_run() {
    let config = Config { reset: true, ..nothing() };
    let (calls, reports, result) = drive(&config, 0, &|call| match call {
        GatewayCall::SystemGetDriverVersion => (CallOutcome::success(), "535.183.01".to_string()),
        other => healthy(other),
    });
    assert_eq!(
        calls,
        vec![GatewayCall::Init, GatewayCall::SystemGetDriverVersion, GatewayCall::Shutdown]
    );
    assert_eq!(
        reports,
        vec![Report::DriverTooOld { version: "535.183.01".to_string(), minimum: 550 }]
    );
    assert_eq!(result, Err(AppError::printed("driver")));
}

#[test]
fn a_driver_version_that_cannot_be_read_or_understood_is_let_through() {
    let config = Config { reset: true, dry_run: true, ..nothing() };
    let (calls, reports, result) = drive(&config, 0, &|call| match call {
        GatewayCall::SystemGetDriverVersion => (CallOutcome::returned(999), String::new()),
        other => healthy(other),
    });
    assert_eq!(result, Ok(()));
    assert_eq!(calls.len(), 6);
    assert_eq!(reports, vec![Report::Step(Notice::DryReset)]);

    let (_, reports, result) = drive(&config, 0, &|call| match call {
        GatewayCall::SystemGetDriverVersion => (CallOutcome::success(), "custom build".to_string()),
        other => healthy(other),
    });
    assert_eq!(result, Ok(()));
    assert_eq!(reports, vec![Report::Step(Notice::DryReset)]);
}

#[test]
fn the_device_index_must_exist() {
    let config = Config { info: true, device: 1, ..nothing() };
    let (calls, _, result) = drive(&config, 0, &healthy);
    assert_eq!(result, Err(AppError::new("device", NvmlError::InvalidArgument)));
    assert_eq!(
        calls,
        vec![
            GatewayCall::Init,
            GatewayCall::SystemGetDriverVersion,
            GatewayCall::DeviceGetCount,
            GatewayCall::Shutdown
        ]
    );

    let (calls, _, result) = drive(&config, 0, &|call| match call {
        GatewayCall::DeviceGetCount => (CallOutcome::with_value(2), String::new()),
        other => healthy(other),
    });
    assert_eq!(result, Ok(()));
    assert_eq!(calls[3], GatewayCall::DeviceGetHandleByIndex { index: 1 });
}

#[test]
fn a_device_that_cannot_be_counted_or_selected_ends_the_run() {
    let config = Config { info: true, ..nothing() };
    let (calls, _, result) = drive(&config, 0, &|call| match call {
        GatewayCall::DeviceGetCount => (CallOutcome::returned(1), String::new()),
        other => healthy(other),
    });
    assert_eq!(result, Err(AppError::new("device", NvmlError::Uninitialized)));
    assert_eq!(calls.len(), 4);

    let (calls, _, result) = drive(&config, 0, &|call| match call {
        GatewayCall::DeviceGetHandleByIndex { .. } => (CallOutcome::returned(6), String::new()),
        other => healthy(other),
    });
    assert_eq!(result, Err(AppError::new("device", NvmlError::NotFound)));
    assert_eq!(calls.len(), 5);
    assert_eq!(shutdowns(&calls), 1);
}

#[test]
fn readings_that_fail_are_left_out_of_the_state() {
    let config = Config { info: true, ..nothing() };
    let (_, reports, result) = drive(&config, 0, &|call| match call {
        GatewayCall::DeviceGetClockInfo { .. }
        | GatewayCall::DeviceGetClockOffsets { .. }
        | GatewayCall::DeviceGetTemperature
        | GatewayCall::DeviceGetPowerUsage
        | GatewayCall::DeviceGetPowerLimit => (CallOutcome::returned(3), String::new()),
        other => healthy(other),
    });
    assert_eq!(result, Ok(()));
    match reports.last().unwrap() {
        Report::Device(info) => {
            assert_eq!(info.name.as_deref(), Some("NVIDIA GeForce RTX 5090"));
            assert_eq!(info.graphics_clock, None);
            assert_eq!(info.graphics_offset, None);
            assert_eq!(info.memory_clock, None);
            assert_eq!(info.temperature, None);
            assert_eq!(info.power_watts, None);
            assert_eq!(info.power, None);
            assert_eq!(info.power_percentage(), None);
        }
        other => panic!("{:?}", other),
    }
}

#[test]
fn the_state_cannot_be_shown_without_the_name() {
    let mut query = show_gpu_info(2);
    assert_eq!(query.pending(), Some(GatewayCall::DeviceGetName));
    assert_eq!(query.result(), None);
    query = query.advance(CallOutcome::returned(15), String::new());
    assert!(query.finished());
    assert_eq!(query.pending(), None);
    assert_eq!(query.result(), Some(Err(NvmlError::GpuIsLost)));
    assert_eq!(query.report().name, None);
    assert_eq!(query.report().index, 2);
}

#[test]
fn the_power_limit_is_shown_as_a_percentage_of_the_default() {
    let mut query = show_gpu_info(0);
    let mut calls = Vec::new();
    while let Some(call) = query.pending() {
        let (outcome, text) = healthy(&call);
        calls.push(call);
        query = query.advance(outcome, text);
    }
    assert_eq!(calls.len(), 9);
    assert_eq!(query.result(), Some(Ok(())));
    assert_eq!(query.report().power_percentage(), Some(86));
    let report = query.into_report();
    assert_eq!(report.architecture, GpuArchitecture::Blackwell);
    assert_eq!(InfoStage::Name, InfoStage::Name);
}

#[test]
fn a_session_that_is_over_stays_as_it_is() {
    let session = run(&Config { reset: true, ..nothing() }, 7);
    let (session, told) = session.advance(CallOutcome::success(), "x".to_string());
    assert!(told.is_empty());
    assert!(session.finished());
    assert_eq!(session.error(), &Some(AppError::new("nvoc", NvmlError::NoPermission)));
    assert_eq!(session.config().reset, true);
}

#[test]
fn a_request_that_cannot_be_carried_out_makes_no_call() {
    for config in [
        nothing(),
        Config { dry_run: true, ..nothing() },
        Config { clocks: Some((100, 100)), ..nothing() },
        Config { clocks: Some((300, 200)), power_limit: Some(100), ..nothing() },
    ] {
        for uid in [0, 1000] {
            let session = run(&config, uid);
            assert!(session.finished());
            assert_eq!(session.pending(), None);
            assert_eq!(
                session.into_result(),
                Some(Err(AppError::new("cli", NvmlError::InvalidArgument)))
            );
        }
    }
}

#[test]
fn the_library_is_brought_up_once_and_torn_down_once() {
    let failing: [GatewayCall; 6] = [
        GatewayCall::SystemGetDriverVersion,
        GatewayCall::DeviceGetCount,
        GatewayCall::DeviceGetHandleByIndex { index: 0 },
        GatewayCall::DeviceGetName,
        GatewayCall::DeviceResetGpuLockedClocks,
        GatewayCall::DeviceGetPowerDefaultLimit,
    ];
    for config in [
        Config { reset: true, ..nothing() },
        Config { info: true, ..nothing() },
        Config { power_limit: Some(100), graphics_offset: Some(5), ..nothing() },
    ] {
        for failed in failing {
            let (calls, _, _) = drive(&config, 0, &|call| {
                if *call == failed {
                    (CallOutcome::returned(15), String::new())
                } else {
                    healthy(call)
                }
            });
            assert_eq!(calls.iter().filter(|call| **call == GatewayCall::Init).count(), 1);
            assert_eq!(shutdowns(&calls), 1);
            assert_eq!(calls[0], GatewayCall::Init);
            assert_eq!(*calls.last().unwrap(), GatewayCall::Shutdown);
        }
    }
}
