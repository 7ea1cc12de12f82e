//! Unit conversions and derived quantities, kept apart from the call sequences.

pub mod power;

pub use power::{
    get_power_info, get_power_usage_watts, mw_to_w, reset_power_limit, set_power_limit_percentage,
    w_to_mw, PowerAnswer, PowerInfo, PowerQuery, PowerRestore, PowerSetting, Progress,
};
