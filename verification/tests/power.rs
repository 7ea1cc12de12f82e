use nvoc::gpu::domain::power::{
    get_power_info, get_power_usage_watts, mw_to_w, reset_power_limit,
    set_power_limit_percentage, w_to_mw, PowerAnswer, PowerInfo, PowerQuery, PowerRestore,
    PowerSetting, Progress,
};
use nvoc::nvml::{CallOutcome, GatewayCall, NvmlError};

fn info(limit: u32, default: u32, min: u32, max: u32) -> PowerInfo {
    PowerInfo { limit_watts: limit, default_watts: default, min_watts: min, max_watts: max }
}

#[test]
fn milliwatts_to_watts_truncates() {
    assert_eq!(mw_to_w(1999), 1);
    assert_eq!(mw_to_w(2000), 2);
    assert_eq!(mw_to_w(999), 0);
    assert_eq!(mw_to_w(0), 0);
    assert_eq!(mw_to_w(u32::MAX), 4_294_967);
}

#[test]
fn watts_to_milliwatts() {
    assert_eq!(w_to_mw(0), 0);
    assert_eq!(w_to_mw(1), 1000);
    assert_eq!(w_to_mw(575), 575_000);
    assert_eq!(w_to_mw(4_294_967), 4_294_967_000);
}

#[test]
fn limit_equal_to_default_is_hundred_percent() {
    for default in [1, 2, 3, 7, 250, 575, 600, 4_294_967, u32::MAX] {
        assert_eq!(info(default, default, 0, default).current_percentage(), 100);
    }
}

#[test]
fn half_the_default_is_about_fifty_percent() {
    assert_eq!(info(300, 600, 0, 700).current_percentage(), 50);
    assert_eq!(info(287, 575, 0, 700).current_percentage(), 49);
    assert_eq!(info(1, 3, 0, 3).current_percentage(), 33);
}

#[test]
fn percentage_keeps_the_whole_part() {
    assert_eq!(info(599, 600, 0, 700).current_percentage(), 99);
    assert_eq!(info(601, 600, 0, 700).current_percentage(), 100);
    assert_eq!(info(606, 600, 0, 700).current_percentage(), 101);
    assert_eq!(info(0, 600, 0, 700).current_percentage(), 0);
}

#[test]
fn percentage_against_a_zero_default() {
    assert_eq!(info(0, 0, 0, 0).current_percentage(), 0);
    assert_eq!(info(1, 0, 0, 0).current_percentage(), u32::MAX);
}

#[test]
fn percentage_too_large_for_the_type_is_held_at_the_top() {
    assert_eq!(info(u32::MAX, 1, 0, 0).current_percentage(), u32::MAX);
    assert_eq!(info(42_949_673, 1, 0, 0).current_percentage(), u32::MAX);
    assert_eq!(info(42_949_672, 1, 0, 0).current_percentage(), 4_294_967_200);
}

#[test]
fn watts_from_percentage() {
    let power = info(600, 600, 400, 660);
    assert_eq!(power.calculate_watts_from_percentage(100), 600);
    assert_eq!(power.calculate_watts_from_percentage(104), 624);
    assert_eq!(power.calculate_watts_from_percentage(80), 480);
    assert_eq!(power.calculate_watts_from_percentage(0), 0);
    assert_eq!(power.calculate_watts_from_percentage(1), 6);
    assert_eq!(info(575, 575, 400, 660).calculate_watts_from_percentage(33), 189);
    assert_eq!(info(575, 575, 400, 660).calculate_watts_from_percentage(1), 5);
}

#[test]
fn watts_from_percentage_too_large_for_the_type() {
    assert_eq!(info(0, u32::MAX, 0, 0).calculate_watts_from_percentage(u32::MAX), u32::MAX);
    assert_eq!(info(0, 600, 0, 0).calculate_watts_from_percentage(u32::MAX), u32::MAX);
    assert_eq!(info(0, 1, 0, 0).calculate_watts_from_percentage(u32::MAX), 42_949_672);
}

#[test]
fn effective_watts_are_clamped_to_the_range() {
    let power = info(600, 600, 400, 660);
    assert_eq!(power.effective_watts_from_percentage(100), 600);
    assert_eq!(power.effective_watts_from_percentage(104), 624);
    assert_eq!(power.effective_watts_from_percentage(110), 660);
    assert_eq!(power.effective_watts_from_percentage(111), 660);
    assert_eq!(power.effective_watts_from_percentage(67), 402);
    assert_eq!(power.effective_watts_from_percentage(66), 400);
    assert_eq!(power.effective_watts_from_percentage(0), 400);
    assert_eq!(power.effective_watts_from_percentage(1_000_000), 660);
    assert_eq!(power.effective_watts_from_percentage(u32::MAX), 660);
}

#[test]
fn effective_watts_never_decrease_with_the_percentage() {
    let power = info(575, 575, 400, 660);
    let mut previous = power.effective_watts_from_percentage(0);
    for percentage in 1..400u32 {
        let watts = power.effective_watts_from_percentage(percentage);
        assert!(previous <= watts);
        assert!(400 <= watts && watts <= 660);
        previous = watts;
    }
}

#[test]
fn range_upside_down_is_cut_at_its_upper_end() {
    let power = info(600, 600, 300, 200);
    assert_eq!(power.effective_watts_from_percentage(0), 200);
    assert_eq!(power.effective_watts_from_percentage(40), 200);
    assert_eq!(power.effective_watts_from_percentage(100), 200);
}

#[test]
fn power_limits_are_read_in_three_calls() {
    let query = get_power_info();
    assert_eq!(query, PowerQuery::Limit);
    assert_eq!(query.pending(), GatewayCall::DeviceGetPowerLimit);
    let query = match query.advance(CallOutcome::with_value(450_999)) {
        PowerAnswer::More(query) => query,
        other => panic!("{:?}", other),
    };
    assert_eq!(query, PowerQuery::Default { limit_mw: 450_999 });
    assert_eq!(query.pending(), GatewayCall::DeviceGetPowerDefaultLimit);
    let query = match query.advance(CallOutcome::with_value(575_000)) {
        PowerAnswer::More(query) => query,
        other => panic!("{:?}", other),
    };
    assert_eq!(query, PowerQuery::Constraints { limit_mw: 450_999, default_mw: 575_000 });
    assert_eq!(query.pending(), GatewayCall::DeviceGetPowerLimitConstraints);
    assert_eq!(
        query.advance(CallOutcome::with_range(400_000, 660_500)),
        PowerAnswer::Info(info(450, 575, 400, 660))
    );
}

#[test]
fn a_failed_power_reading_ends_the_query() {
    assert_eq!(
        PowerQuery::Limit.advance(CallOutcome::returned(3)),
        PowerAnswer::Failed(NvmlError::NotSupported)
    );
    assert_eq!(
        PowerQuery::Default { limit_mw: 1 }.advance(CallOutcome::returned(15)),
        PowerAnswer::Failed(NvmlError::GpuIsLost)
    );
    assert_eq!(
        PowerQuery::Constraints { limit_mw: 1, default_mw: 2 }
            .advance(CallOutcome::unavailable(NvmlError::FunctionNotFound)),
        PowerAnswer::Failed(NvmlError::FunctionNotFound)
    );
}

#[test]
fn power_usage_in_watts() {
    assert_eq!(get_power_usage_watts(CallOutcome::with_value(321_999)), Ok(321));
    assert_eq!(get_power_usage_watts(CallOutcome::returned(10)), Err(NvmlError::Timeout));
}

#[test]
fn setting_the_limit_reads_afresh_and_writes_once() {
    let task = set_power_limit_percentage(80);
    assert_eq!(task, PowerSetting::Reading { percentage: 80, query: PowerQuery::Limit });
    let mut task = task;
    let mut calls = Vec::new();
    let answers = [
        CallOutcome::with_value(575_000),
        CallOutcome::with_value(575_999),
        CallOutcome::with_range(400_000, 660_000),
        CallOutcome::success(),
    ];
    let mut progress = Progress::More(task);
    for answer in answers {
        task = match progress {
            Progress::More(task) => task,
            other => panic!("{:?}", other),
        };
        calls.push(task.pending());
        progress = task.advance(answer);
    }
    assert_eq!(progress, Progress::Done);
    assert_eq!(
        calls,
        vec![
            GatewayCall::DeviceGetPowerLimit,
            GatewayCall::DeviceGetPowerDefaultLimit,
            GatewayCall::DeviceGetPowerLimitConstraints,
            GatewayCall::DeviceSetPowerLimit { limit_mw: 460_000 },
        ]
    );
}

#[test]
fn setting_the_limit_fails_with_the_first_failure() {
    assert_eq!(
        set_power_limit_percentage(80).advance(CallOutcome::returned(15)),
        Progress::Failed(NvmlError::GpuIsLost)
    );
    let reading = PowerSetting::Reading {
        percentage: 80,
        query: PowerQuery::Constraints { limit_mw: 1, default_mw: 2 },
    };
    assert_eq!(reading.advance(CallOutcome::returned(3)), Progress::Failed(NvmlError::NotSupported));
    let writing = PowerSetting::Writing { limit_mw: 460_000 };
    assert!(writing.pending().is_write());
    assert_eq!(writing.advance(CallOutcome::returned(4)), Progress::Failed(NvmlError::NoPermission));
}

#[test]
fn restoring_the_default_writes_back_what_was_read() {
    let task = reset_power_limit();
    assert_eq!(task, PowerRestore::Reading);
    assert_eq!(task.pending(), GatewayCall::DeviceGetPowerDefaultLimit);
    let task = match task.advance(CallOutcome::with_value(575_123)) {
        Progress::More(task) => task,
        other => panic!("{:?}", other),
    };
    assert_eq!(task, PowerRestore::Writing { default_mw: 575_123 });
    assert_eq!(task.pending(), GatewayCall::DeviceSetPowerLimit { limit_mw: 575_123 });
    assert_eq!(task.advance(CallOutcome::success()), Progress::Done);
    assert_eq!(task.advance(CallOutcome::returned(2)), Progress::Failed(NvmlError::InvalidArgument));
    assert_eq!(
        reset_power_limit().advance(CallOutcome::returned(13)),
        Progress::Failed(NvmlError::FunctionNotFound)
    );
}
