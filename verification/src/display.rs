//! Pre-rendered label groups for the presentation layer, one function
//! per dashboard panel. Each reads whatever snapshot the session has
//! cached; an absent snapshot (no row, or a failed fetch) yields the
//! literal `No Data` for every label, never a failure.

use vstd::prelude::*;
use vstd::string::StringExecFns;

use crate::fan_data::{control_method_label, decoded_label, FanData};
use crate::session::App;
use crate::time_status::{connection_label, last_update_label, parsed_epoch, running_label,
    CLOCK_BOUND};

verus! {

/// The three temperature labels: top, bottom, far.
pub fn get_temperature_values(app: &App) -> (r: (String, String, String))
    ensures
        app.fan_data is None ==> r.0@ == "No Data"@ && r.1@ == "No Data"@ && r.2@ == "No Data"@,
        (app.fan_data matches Some(d) ==> r.0@ == decoded_label(
            d.temperature_top.code as int,
            d.temperature_top.text@,
            "℃"@,
        ) && r.1@ == decoded_label(
            d.temperature_bottom.code as int,
            d.temperature_bottom.text@,
            "℃"@,
        ) && r.2@ == decoded_label(
            d.temperature_far.code as int,
            d.temperature_far.text@,
            "℃"@,
        )),
{
    match &app.fan_data {
        Some(dta) => (
            dta.get_temperature_top_string(),
            dta.get_temperature_bottom_string(),
            dta.get_temperature_far_string(),
        ),
        None => ("No Data".to_owned(), "No Data".to_owned(), "No Data".to_owned()),
    }
}

/// General information: battery voltage, connection status, age label.
pub fn get_information_values(app: &App, now: i64) -> (r: (String, String, String))
    requires
        -CLOCK_BOUND <= now <= CLOCK_BOUND,
    ensures
        app.fan_data is None ==> r.0@ == "No Data"@ && r.1@ == "No Data"@ && r.2@ == "No Data"@,
        (app.fan_data matches Some(d) ==> r.0@ == decoded_label(
            d.battery_voltage.code as int,
            d.battery_voltage.text@,
            "V"@,
        ) && (parsed_epoch(d.last_update@) is None ==> r.1@ == "Parsing error"@ && r.2@
            == "Parsing error"@) && (parsed_epoch(d.last_update@) matches Some(t) ==> r.1@
            == connection_label(now - t) && r.2@ == last_update_label(now - t))),
{
    match &app.fan_data {
        Some(dta) => (
            dta.get_voltage_string(),
            dta.get_connection_status_string(now),
            dta.get_last_update_string(now),
        ),
        None => ("No Data".to_owned(), "No Data".to_owned(), "No Data".to_owned()),
    }
}

/// Drive status: running flag, error flag, command flag.
pub fn get_fan_status_values(app: &App) -> (r: (String, String, String))
    ensures
        app.fan_data is None ==> r.0@ == "No Data"@ && r.1@ == "No Data"@ && r.2@ == "No Data"@,
        (app.fan_data matches Some(d) ==> r.0@ == (if d.vsd_running {
            "Running"@
        } else {
            "Idle"@
        }) && r.1@ == (if d.vsd_error {
            "Error"@
        } else {
            "Ready"@
        }) && r.2@ == (if d.vsd_command {
            "On"@
        } else {
            "Off"@
        })),
{
    match &app.fan_data {
        Some(dta) => (dta.get_running_string(), dta.get_ready_string(), dta.get_command_string()),
        None => ("No Data".to_owned(), "No Data".to_owned(), "No Data".to_owned()),
    }
}

/// Environmental data: humidity, wind speed, wind direction.
pub fn get_environment_values(app: &App) -> (r: (String, String, String))
    ensures
        app.fan_data is None ==> r.0@ == "No Data"@ && r.1@ == "No Data"@ && r.2@ == "No Data"@,
        (app.fan_data matches Some(d) ==> r.0@ == decoded_label(
            d.humidity.code as int,
            d.humidity.text@,
            "%"@,
        ) && r.1@ == decoded_label(d.wind_speed.code as int, d.wind_speed.text@, "m/s"@) && r.2@
            == decoded_label(d.wind_direction.code as int, d.wind_direction.text@, "°"@)),
{
    match &app.fan_data {
        Some(dta) => (
            dta.get_humidity_string(),
            dta.get_wind_speed_string(),
            dta.get_wind_direction_string(),
        ),
        None => ("No Data".to_owned(), "No Data".to_owned(), "No Data".to_owned()),
    }
}

/// Additional data: signal strength and rain meter.
pub fn get_additional_values(app: &App) -> (r: (String, String))
    ensures
        app.fan_data is None ==> r.0@ == "No Data"@ && r.1@ == "No Data"@,
        (app.fan_data matches Some(d) ==> r.0@ == decoded_label(
            d.signal_strength.code as int,
            d.signal_strength.text@,
            "dBm"@,
        ) && r.1@ == decoded_label(d.rain_meter.code as int, d.rain_meter.text@, "mm"@)),
{
    match &app.fan_data {
        Some(dta) => (dta.get_signal_strength_string(), dta.get_rain_meter_string()),
        None => ("No Data".to_owned(), "No Data".to_owned()),
    }
}

/// Motor data: current, vibration, and the main switch state.
pub fn get_fan_data_values(app: &App) -> (r: (String, String, String))
    ensures
        app.fan_data is None ==> r.0@ == "No Data"@ && r.1@ == "No Data"@ && r.2@ == "No Data"@,
        (app.fan_data matches Some(d) ==> r.0@ == decoded_label(
            d.motor_current.code as int,
            d.motor_current.text@,
            "A"@,
        ) && r.1@ == decoded_label(d.motor_vibration.code as int, d.motor_vibration.text@, "mm/s"@)
            && r.2@ == (if d.main_switch {
            "On"@
        } else {
            "Off"@
        })),
{
    match &app.fan_data {
        Some(dta) => (
            dta.get_motor_current_string(),
            dta.get_motor_vibration_string(),
            dta.get_main_switch_string(),
        ),
        None => ("No Data".to_owned(), "No Data".to_owned(), "No Data".to_owned()),
    }
}

/// Panel switch and door status: main switch, main panel door, control
/// panel door.
pub fn get_panel_door_values(app: &App) -> (r: (String, String, String))
    ensures
        app.fan_data is None ==> r.0@ == "No Data"@ && r.1@ == "No Data"@ && r.2@ == "No Data"@,
        (app.fan_data matches Some(d) ==> r.0@ == (if d.main_switch {
            "On"@
        } else {
            "Off"@
        }) && r.1@ == (if d.main_panel_open {
            "Closed"@
        } else {
            "Open"@
        }) && r.2@ == (if d.control_door {
            "Closed"@
        } else {
            "Open"@
        })),
{
    match &app.fan_data {
        Some(dta) => (
            dta.get_main_switch_string(),
            dta.get_main_panel_string(),
            dta.get_control_door_string(),
        ),
        None => ("No Data".to_owned(), "No Data".to_owned(), "No Data".to_owned()),
    }
}

/// Main panel status: control method and the derived running status.
pub fn get_main_panel_values(app: &App, now: i64) -> (r: (String, String))
    requires
        -CLOCK_BOUND <= now <= CLOCK_BOUND,
    ensures
        app.fan_data is None ==> r.0@ == "No Data"@ && r.1@ == "No Data"@,
        (app.fan_data matches Some(d) ==> r.0@ == control_method_label(d.control_method as int)
            && (!d.vsd_running ==> r.1@ == "Not Running"@) && (d.vsd_running && parsed_epoch(
            d.last_update@,
        ) is None ==> r.1@ == "Parsing error"@)),
        (app.fan_data matches Some(d) ==> (parsed_epoch(d.last_update@) matches Some(t) ==> (
        d.vsd_running ==> r.1@ == running_label(now - t)))),
{
    match &app.fan_data {
        Some(dta) => (dta.get_operating_mode_string(), dta.get_running_status_string(now)),
        None => ("No Data".to_owned(), "No Data".to_owned()),
    }
}

} // verus!
