use fan_dashboard::display::{
    get_additional_values, get_environment_values, get_fan_data_values, get_fan_status_values,
    get_information_values, get_main_panel_values, get_panel_door_values, get_temperature_values,
};
use fan_dashboard::{App, Fan, FanData, Reading};

// Epoch seconds of the wall-clock time 2024-01-01 00:00:00.
const T0: i64 = 1704067200;

fn reading(code: i16, text: &str) -> Reading {
    Reading { code, text: text.to_string() }
}

fn snapshot() -> FanData {
    FanData {
        main_panel_open: true,
        control_door: false,
        main_switch: true,
        vsd_error: false,
        vsd_running: true,
        vsd_command: false,
        temperature_top: reading(21, "21.5"),
        temperature_bottom: reading(-49, "-49"),
        temperature_far: reading(-50, "-50"),
        signal_strength: reading(-80, "-80"),
        control_method: 2,
        battery_voltage: reading(12, "12.7"),
        last_update: "2024-01-01 00:00:00".to_string(),
        motor_vibration: reading(2, "2.4"),
        motor_current: reading(3, "3.2"),
        humidity: reading(45, "45"),
        wind_speed: reading(3, "3.1"),
        wind_direction: Reading::from_i16(270),
        rain_meter: reading(0, "0.4"),
    }
}

fn app_with(fan_data: Option<FanData>) -> App {
    let fans = vec![Fan {
        name: "North".to_string(),
        serial_number: "SN-1".to_string(),
        mac: Some("00:11:22:33:44:55".to_string()),
    }];
    App::new(fans, fan_data, 0)
}

#[test]
fn absent_snapshot_reads_no_data_everywhere() {
    let app = app_with(None);
    assert_eq!(
        get_temperature_values(&app),
        ("No Data".to_string(), "No Data".to_string(), "No Data".to_string())
    );
    assert_eq!(
        get_information_values(&app, T0),
        ("No Data".to_string(), "No Data".to_string(), "No Data".to_string())
    );
    assert_eq!(
        get_fan_status_values(&app),
        ("No Data".to_string(), "No Data".to_string(), "No Data".to_string())
    );
    assert_eq!(
        get_environment_values(&app),
        ("No Data".to_string(), "No Data".to_string(), "No Data".to_string())
    );
    assert_eq!(get_additional_values(&app), ("No Data".to_string(), "No Data".to_string()));
    assert_eq!(
        get_fan_data_values(&app),
        ("No Data".to_string(), "No Data".to_string(), "No Data".to_string())
    );
    assert_eq!(
        get_panel_door_values(&app),
        ("No Data".to_string(), "No Data".to_string(), "No Data".to_string())
    );
    assert_eq!(get_main_panel_values(&app, T0), ("No Data".to_string(), "No Data".to_string()));
}

#[test]
fn present_snapshot_fills_every_panel() {
    let app = app_with(Some(snapshot()));
    assert_eq!(
        get_temperature_values(&app),
        ("21.5℃".to_string(), "Disabled".to_string(), "Error".to_string())
    );
    assert_eq!(
        get_information_values(&app, T0 + 300),
        ("12.7V".to_string(), "Online".to_string(), "5 Minutes Ago".to_string())
    );
    assert_eq!(
        get_fan_status_values(&app),
        ("Running".to_string(), "Ready".to_string(), "Off".to_string())
    );
    assert_eq!(
        get_environment_values(&app),
        ("45%".to_string(), "3.1m/s".to_string(), "270°".to_string())
    );
    assert_eq!(get_additional_values(&app), ("-80dBm".to_string(), "0.4mm".to_string()));
    assert_eq!(
        get_fan_data_values(&app),
        ("3.2A".to_string(), "2.4mm/s".to_string(), "On".to_string())
    );
    assert_eq!(
        get_panel_door_values(&app),
        ("On".to_string(), "Closed".to_string(), "Open".to_string())
    );
    assert_eq!(
        get_main_panel_values(&app, T0 + 300),
        ("C&M Auto".to_string(), "Running".to_string())
    );
}

#[test]
fn stale_snapshot_goes_offline_and_not_running() {
    let app = app_with(Some(snapshot()));
    let now = T0 + 7200;
    assert_eq!(
        get_information_values(&app, now),
        ("12.7V".to_string(), "Offline".to_string(), "2 Hours Ago".to_string())
    );
    assert_eq!(get_main_panel_values(&app, now), ("C&M Auto".to_string(), "Not Running".to_string()));
}
