use garage_door::config::{AppConfig, GarageDoorConfig};
use garage_door::mock_gpio::{MockInputPin, MockOutputPin};
use garage_door::simulation::DoorSimulation;

#[test]
fn press_from_closed_moves_up_and_stops_at_top() {
    let mut sim = DoorSimulation::new(1_000, 0);
    assert_eq!(sim.get_position(), 0);
    assert_eq!(sim.limit_levels(), (false, true));
    sim.update(true, 10);
    assert_eq!(sim.get_position(), 10);
    sim.update(false, 510);
    assert_eq!(sim.get_position(), 510);
    assert_eq!(sim.limit_levels(), (true, true));
    sim.update(false, 2_000);
    assert_eq!(sim.get_position(), 1_000);
    assert_eq!(sim.limit_levels(), (true, false));
    // stopped at the top: no more motion
    sim.update(false, 3_000);
    assert_eq!(sim.get_position(), 1_000);
}

#[test]
fn second_press_stops_and_third_reverses() {
    let mut sim = DoorSimulation::new(1_000, 0);
    sim.update(true, 0);
    sim.update(false, 400);
    assert_eq!(sim.get_position(), 400);
    sim.update(true, 400);
    sim.update(false, 600);
    assert_eq!(sim.get_position(), 400);
    sim.update(true, 600);
    sim.update(false, 700);
    assert_eq!(sim.get_position(), 300);
    sim.update(false, 2_000);
    assert_eq!(sim.get_position(), 0);
    assert_eq!(sim.limit_levels(), (false, true));
}

#[test]
fn holding_the_relay_is_one_press() {
    let mut sim = DoorSimulation::new(1_000, 0);
    sim.update(true, 0);
    sim.update(true, 100);
    sim.update(true, 200);
    assert_eq!(sim.get_position(), 200);
}

#[test]
fn press_from_top_moves_down() {
    let mut sim = DoorSimulation::new(100, 0);
    sim.update(true, 0);
    sim.update(false, 500);
    assert_eq!(sim.get_position(), 100);
    sim.update(true, 500);
    sim.update(false, 550);
    assert_eq!(sim.get_position(), 50);
}

#[test]
fn mock_pins_share_their_level_between_clones() {
    let input = MockInputPin::new(true);
    let reader = input.clone();
    assert!(reader.is_high());
    input.set_state(false);
    assert!(reader.is_low());
    assert!(!reader.is_high());

    let out = MockOutputPin::new();
    let watcher = out.clone();
    assert!(!watcher.is_set_high());
    out.set_high();
    assert!(watcher.is_set_high());
    out.set_low();
    assert!(!watcher.is_set_high());
}

fn door_config(secs: u64) -> GarageDoorConfig {
    GarageDoorConfig {
        close_limit_pin: 17,
        open_limit_pin: 27,
        coupler_pin: 22,
        poll_interval_ms: 100,
        expected_shut_time_sec: secs,
        shut_time_buffer_sec: 5,
        limit_cooldown_ms: 4_000,
        coupler_duration_intervals: 5,
        coupler_active_intervals: 3,
        coupler_rest_intervals: 7,
        coupler_active_low: true,
        server_address: "0.0.0.0:8080".to_string(),
        api_key: "open-sesame".to_string(),
    }
}

#[test]
fn loop_config_converts_seconds() {
    let app = AppConfig { garage_door: door_config(15) };
    let c = app.garage_door.loop_config();
    assert_eq!(c.travel_ms, 15_000);
    assert_eq!(c.cooldown_ms, 4_000);
    assert_eq!(c.active_ticks, 3);
    assert_eq!(c.rest_ticks, 7);
    assert!(c.active_low);
    assert_eq!(door_config(u64::MAX).loop_config().travel_ms, u64::MAX);
    assert_eq!(door_config(u64::MAX / 1000).loop_config().travel_ms, (u64::MAX / 1000) * 1000);
}

#[test]
fn token_must_match_api_key() {
    let c = door_config(15);
    assert!(c.accepts_token(&"open-sesame".to_string()));
    assert!(!c.accepts_token(&"wrong".to_string()));
    assert!(!c.accepts_token(&String::new()));
}
