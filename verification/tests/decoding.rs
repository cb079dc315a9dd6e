use fan_dashboard::{FanData, Reading};

fn reading(code: i16, text: &str) -> Reading {
    Reading { code, text: text.to_string() }
}

fn snapshot() -> FanData {
    FanData {
        main_panel_open: true,
        control_door: false,
        main_switch: true,
        vsd_error: false,
        vsd_running: true,
        vsd_command: true,
        temperature_top: reading(21, "21.5"),
        temperature_bottom: reading(18, "18"),
        temperature_far: reading(19, "19.25"),
        signal_strength: reading(-80, "-80"),
        control_method: 1,
        battery_voltage: reading(12, "12.7"),
        last_update: "2024-01-01 00:00:00".to_string(),
        motor_vibration: reading(1013, "1013"),
        motor_current: reading(3, "3.2"),
        humidity: reading(45, "45"),
        wind_speed: reading(3, "3.1"),
        wind_direction: Reading::from_i16(270),
        rain_meter: reading(0, "0.4"),
    }
}

#[test]
fn non_sentinel_values_keep_their_decimal_text() {
    let d = snapshot();
    assert_eq!(d.get_temperature_top_string(), "21.5℃");
    assert_eq!(d.get_temperature_bottom_string(), "18℃");
    assert_eq!(d.get_temperature_far_string(), "19.25℃");
    assert_eq!(d.get_motor_current_string(), "3.2A");
    assert_eq!(d.get_motor_vibration_string(), "1013mm/s");
    assert_eq!(d.get_humidity_string(), "45%");
    assert_eq!(d.get_voltage_string(), "12.7V");
    assert_eq!(d.get_wind_speed_string(), "3.1m/s");
    assert_eq!(d.get_wind_direction_string(), "270°");
    assert_eq!(d.get_signal_strength_string(), "-80dBm");
    assert_eq!(d.get_rain_meter_string(), "0.4mm");
}

#[test]
fn sentinels_decode_per_field_independently() {
    let mut d = snapshot();
    d.temperature_bottom = reading(-49, "-49");
    d.temperature_far = reading(-50, "-50.0");
    d.humidity = reading(-49, "-49.0");
    d.rain_meter = reading(-50, "-50");
    // The sentinel fields read Disabled / Error ...
    assert_eq!(d.get_temperature_bottom_string(), "Disabled");
    assert_eq!(d.get_temperature_far_string(), "Error");
    assert_eq!(d.get_humidity_string(), "Disabled");
    assert_eq!(d.get_rain_meter_string(), "Error");
    // ... while their siblings in the same snapshot stay genuine.
    assert_eq!(d.get_temperature_top_string(), "21.5℃");
    assert_eq!(d.get_voltage_string(), "12.7V");
}

#[test]
fn truncated_sentinel_beats_fractional_text() {
    // A raw value of -49.2 truncates to the disabled code.
    let mut d = snapshot();
    d.motor_current = reading(-49, "-49.2");
    assert_eq!(d.get_motor_current_string(), "Disabled");
    // -48.7 truncates to -48: a genuine reading.
    d.motor_current = reading(-48, "-48.7");
    assert_eq!(d.get_motor_current_string(), "-48.7A");
}

#[test]
fn wind_direction_applies_sentinels_directly() {
    let mut d = snapshot();
    d.wind_direction = Reading::from_i16(-49);
    assert_eq!(d.get_wind_direction_string(), "Disabled");
    d.wind_direction = Reading::from_i16(-50);
    assert_eq!(d.get_wind_direction_string(), "Error");
    d.wind_direction = Reading::from_i16(-51);
    assert_eq!(d.get_wind_direction_string(), "-51°");
}

#[test]
fn reading_from_i16_renders_decimal_text() {
    let r = Reading::from_i16(270);
    assert_eq!(r.code, 270);
    assert_eq!(r.text, "270");
    let r = Reading::from_i16(0);
    assert_eq!(r.text, "0");
    let r = Reading::from_i16(-32768);
    assert_eq!(r.text, "-32768");
}

#[test]
fn boolean_fields_map_two_ways() {
    let mut d = snapshot();
    assert_eq!(d.get_main_panel_string(), "Closed");
    assert_eq!(d.get_control_door_string(), "Open");
    assert_eq!(d.get_main_switch_string(), "On");
    assert_eq!(d.get_ready_string(), "Ready");
    assert_eq!(d.get_running_string(), "Running");
    assert_eq!(d.get_command_string(), "On");
    d.main_panel_open = false;
    d.control_door = true;
    d.main_switch = false;
    d.vsd_error = true;
    d.vsd_running = false;
    d.vsd_command = false;
    assert_eq!(d.get_main_panel_string(), "Open");
    assert_eq!(d.get_control_door_string(), "Closed");
    assert_eq!(d.get_main_switch_string(), "Off");
    assert_eq!(d.get_ready_string(), "Error");
    assert_eq!(d.get_running_string(), "Idle");
    assert_eq!(d.get_command_string(), "Off");
}

#[test]
fn control_method_maps_fixed_labels() {
    let mut d = snapshot();
    d.control_method = 0;
    assert_eq!(d.get_operating_mode_string(), "Manual");
    d.control_method = 1;
    assert_eq!(d.get_operating_mode_string(), "Temperature Control");
    d.control_method = 2;
    assert_eq!(d.get_operating_mode_string(), "C&M Auto");
    d.control_method = 3;
    assert_eq!(d.get_operating_mode_string(), "C&M Manual On");
    d.control_method = 4;
    assert_eq!(d.get_operating_mode_string(), "C&M Manual Off");
    d.control_method = 5;
    assert_eq!(d.get_operating_mode_string(), "Unknown");
    d.control_method = 255;
    assert_eq!(d.get_operating_mode_string(), "Unknown");
}
