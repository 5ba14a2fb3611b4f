use vstd::prelude::*;
use crate::control::LoopConfig;

verus! {

/// Settings of the whole service.
#[derive(Clone, Debug)]
pub struct AppConfig {
    pub garage_door: GarageDoorConfig,
}

/// Settings of the door: pins, timing, relay polarity, listening address and
/// the API key that callers must present.
#[derive(Clone, Debug)]
pub struct GarageDoorConfig {
    pub close_limit_pin: u8,
    pub open_limit_pin: u8,
    pub coupler_pin: u8,
    pub poll_interval_ms: u64,
    pub expected_shut_time_sec: u64,
    pub shut_time_buffer_sec: u64,
    pub limit_cooldown_ms: u64,
    pub coupler_duration_intervals: u64,
    pub coupler_active_intervals: u64,
    pub coupler_rest_intervals: u64,
    pub coupler_active_low: bool,
    pub server_address: String,
    pub api_key: String,
}

/// Milliseconds in `secs` seconds, or `u64::MAX` if that does not fit.
pub open spec fn secs_to_ms(secs: u64) -> u64 {
    if secs * 1000 > u64::MAX {
        u64::MAX
    } else {
        (secs * 1000) as u64
    }
}

impl GarageDoorConfig {
    /// The control loop's parameters.
    pub fn loop_config(&self) -> (r: LoopConfig)
        ensures
            r.travel_ms == secs_to_ms(self.expected_shut_time_sec),
            r.cooldown_ms == self.limit_cooldown_ms,
            r.active_ticks == self.coupler_active_intervals,
            r.rest_ticks == self.coupler_rest_intervals,
            r.active_low == self.coupler_active_low,
    {
        let secs = self.expected_shut_time_sec;
        let travel_ms = if secs > u64::MAX / 1000 {
            u64::MAX
        } else {
            secs * 1000
        };
        LoopConfig {
            travel_ms,
            cooldown_ms: self.limit_cooldown_ms,
            active_ticks: self.coupler_active_intervals,
            rest_ticks: self.coupler_rest_intervals,
            active_low: self.coupler_active_low,
        }
    }

    /// Whether a bearer token is the configured API key.
    pub fn accepts_token(&self, token: &String) -> (r: bool)
        ensures
            r == (token@ == self.api_key@),
    {
        *token == self.api_key
    }
}

} // verus!
