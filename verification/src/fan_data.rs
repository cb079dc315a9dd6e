//! The telemetry snapshot and its decoding into display labels.
//!
//! Numeric sensor fields share one sentinel convention: the value
//! truncated toward zero to a 16-bit signed integer may be one of two
//! reserved codes, `-49` for a disabled sensor and `-50` for a faulty
//! one; any other value is a genuine reading, shown as its decimal text
//! with the field's unit suffix.

use vstd::prelude::*;
use vstd::string::StringExecFns;

use crate::decimal::{dec_int, i64_to_dec_string};
use crate::time_status::{
    connection_label, format_connection_label, format_last_update_label, format_running_label,
    last_update_label, parsed_epoch, running_label, seconds_since, ParseError, CLOCK_BOUND,
};

verus! {

/// Sentinel code for a sensor that is not installed or not applicable.
pub const DISABLED_CODE: i16 = -49;

/// Sentinel code for a faulty sensor.
pub const ERROR_CODE: i16 = -50;

/// One numeric sensor observation: the raw value truncated toward zero
/// into the 16-bit sentinel domain, and the untruncated value's default
/// decimal text, captured together when the reading is taken off the
/// storage row.
#[derive(Clone, Debug)]
pub struct Reading {
    /// The raw value truncated toward zero to `i16`; the domain in
    /// which the sentinel codes live.
    pub code: i16,
    /// The untruncated value's natural decimal rendering, shown when
    /// the code is not a sentinel.
    pub text: String,
}

/// The label a numeric reading decodes to: `Disabled` or `Error` on the
/// two sentinel codes, otherwise the value's decimal text followed by
/// the field's unit suffix.
pub open spec fn decoded_label(code: int, text: Seq<char>, suffix: Seq<char>) -> Seq<char> {
    if code == DISABLED_CODE as int {
        "Disabled"@
    } else if code == ERROR_CODE as int {
        "Error"@
    } else {
        text + suffix
    }
}

impl Reading {
    /// An integer-typed reading (wind direction): the code is the value
    /// itself and the text is its decimal rendering.
    pub fn from_i16(v: i16) -> (r: Reading)
        ensures
            r.code == v,
            r.text@ == dec_int(v as int),
    {
        let text = i64_to_dec_string(v as i64);
        Reading { code: v, text }
    }

    /// Decodes the reading under the sentinel convention.
    pub fn decode(&self, suffix: &str) -> (r: String)
        ensures
            r@ == decoded_label(self.code as int, self.text@, suffix@),
    {
        if self.code == DISABLED_CODE {
            "Disabled".to_owned()
        } else if self.code == ERROR_CODE {
            "Error".to_owned()
        } else {
            self.text.clone().concat(suffix)
        }
    }
}

/// Law: decoding a reading whose truncated value is the disabled
/// sentinel yields `Disabled`, and the error sentinel `Error`, whatever
/// the reading's text and whatever the field's unit suffix — so for
/// every numeric field independently of its siblings.
pub proof fn lemma_sentinel_decoding(code: int, text: Seq<char>, suffix: Seq<char>)
    ensures
        code == DISABLED_CODE as int ==> decoded_label(code, text, suffix) == "Disabled"@,
        code == ERROR_CODE as int ==> decoded_label(code, text, suffix) == "Error"@,
{
}

/// Law: decoding a non-sentinel reading yields exactly the value's
/// decimal text followed by the field's unit suffix, for every field.
pub proof fn lemma_non_sentinel_decoding(code: int, text: Seq<char>, suffix: Seq<char>)
    requires
        code != DISABLED_CODE as int,
        code != ERROR_CODE as int,
    ensures
        decoded_label(code, text, suffix) == text + suffix,
{
}

/// The label for the control-method field: a fixed map on `0..=4`, and
/// `Unknown` outside it.
pub open spec fn control_method_label(m: int) -> Seq<char> {
    if m == 0 {
        "Manual"@
    } else if m == 1 {
        "Temperature Control"@
    } else if m == 2 {
        "C&M Auto"@
    } else if m == 3 {
        "C&M Manual On"@
    } else if m == 4 {
        "C&M Manual Off"@
    } else {
        "Unknown"@
    }
}

/// One fan's most recent telemetry row, fully populated or absent as a
/// whole; fields are independent observations at the same timestamp.
#[derive(Clone, Debug)]
pub struct FanData {
    // Panel switch & door status
    pub main_panel_open: bool,
    pub control_door: bool,
    pub main_switch: bool,
    // Drive status
    pub vsd_error: bool,
    pub vsd_running: bool,
    pub vsd_command: bool,
    // Temperatures
    pub temperature_top: Reading,
    pub temperature_bottom: Reading,
    pub temperature_far: Reading,
    // Fan information
    pub signal_strength: Reading,
    pub control_method: u8,
    pub battery_voltage: Reading,
    pub last_update: String,
    // Motor data
    pub motor_vibration: Reading,
    pub motor_current: Reading,
    // Environmental data
    pub humidity: Reading,
    pub wind_speed: Reading,
    pub wind_direction: Reading,
    pub rain_meter: Reading,
}

impl FanData {
    pub fn get_temperature_top_string(&self) -> (r: String)
        ensures
            r@ == decoded_label(self.temperature_top.code as int, self.temperature_top.text@, "℃"@),
    {
        self.temperature_top.decode("℃")
    }

    pub fn get_temperature_bottom_string(&self) -> (r: String)
        ensures
            r@ == decoded_label(
                self.temperature_bottom.code as int,
                self.temperature_bottom.text@,
                "℃"@,
            ),
    {
        self.temperature_bottom.decode("℃")
    }

    pub fn get_temperature_far_string(&self) -> (r: String)
        ensures
            r@ == decoded_label(self.temperature_far.code as int, self.temperature_far.text@, "℃"@),
    {
        self.temperature_far.decode("℃")
    }

    pub fn get_motor_current_string(&self) -> (r: String)
        ensures
            r@ == decoded_label(self.motor_current.code as int, self.motor_current.text@, "A"@),
    {
        self.motor_current.decode("A")
    }

    pub fn get_motor_vibration_string(&self) -> (r: String)
        ensures
            r@ == decoded_label(
                self.motor_vibration.code as int,
                self.motor_vibration.text@,
                "mm/s"@,
            ),
    {
        self.motor_vibration.decode("mm/s")
    }

    pub fn get_ready_string(&self) -> (r: String)
        ensures
            r@ == (if self.vsd_error {
                "Error"@
            } else {
                "Ready"@
            }),
    {
        if self.vsd_error {
            "Error".to_owned()
        } else {
            "Ready".to_owned()
        }
    }

    pub fn get_running_string(&self) -> (r: String)
        ensures
            r@ == (if self.vsd_running {
                "Running"@
            } else {
                "Idle"@
            }),
    {
        if self.vsd_running {
            "Running".to_owned()
        } else {
            "Idle".to_owned()
        }
    }

    pub fn get_command_string(&self) -> (r: String)
        ensures
            r@ == (if self.vsd_command {
                "On"@
            } else {
                "Off"@
            }),
    {
        if self.vsd_command {
            "On".to_owned()
        } else {
            "Off".to_owned()
        }
    }

    pub fn get_operating_mode_string(&self) -> (r: String)
        ensures
            r@ == control_method_label(self.control_method as int),
    {
        match self.control_method {
            0 => "Manual".to_owned(),
            1 => "Temperature Control".to_owned(),
            2 => "C&M Auto".to_owned(),
            3 => "C&M Manual On".to_owned(),
            4 => "C&M Manual Off".to_owned(),
            _ => "Unknown".to_owned(),
        }
    }

    pub fn get_humidity_string(&self) -> (r: String)
        ensures
            r@ == decoded_label(self.humidity.code as int, self.humidity.text@, "%"@),
    {
        self.humidity.decode("%")
    }

    pub fn get_voltage_string(&self) -> (r: String)
        ensures
            r@ == decoded_label(self.battery_voltage.code as int, self.battery_voltage.text@, "V"@),
    {
        self.battery_voltage.decode("V")
    }

    pub fn get_wind_speed_string(&self) -> (r: String)
        ensures
            r@ == decoded_label(self.wind_speed.code as int, self.wind_speed.text@, "m/s"@),
    {
        self.wind_speed.decode("m/s")
    }

    pub fn get_wind_direction_string(&self) -> (r: String)
        ensures
            r@ == decoded_label(self.wind_direction.code as int, self.wind_direction.text@, "°"@),
    {
        self.wind_direction.decode("°")
    }

    pub fn get_signal_strength_string(&self) -> (r: String)
        ensures
            r@ == decoded_label(
                self.signal_strength.code as int,
                self.signal_strength.text@,
                "dBm"@,
            ),
    {
        self.signal_strength.decode("dBm")
    }

    pub fn get_rain_meter_string(&self) -> (r: String)
        ensures
            r@ == decoded_label(self.rain_meter.code as int, self.rain_meter.text@, "mm"@),
    {
        self.rain_meter.decode("mm")
    }

    pub fn get_main_panel_string(&self) -> (r: String)
        ensures
            r@ == (if self.main_panel_open {
                "Closed"@
            } else {
                "Open"@
            }),
    {
        if self.main_panel_open {
            "Closed".to_owned()
        } else {
            "Open".to_owned()
        }
    }

    pub fn get_control_door_string(&self) -> (r: String)
        ensures
            r@ == (if self.control_door {
                "Closed"@
            } else {
                "Open"@
            }),
    {
        if self.control_door {
            "Closed".to_owned()
        } else {
            "Open".to_owned()
        }
    }

    pub fn get_main_switch_string(&self) -> (r: String)
        ensures
            r@ == (if self.main_switch {
                "On"@
            } else {
                "Off"@
            }),
    {
        if self.main_switch {
            "On".to_owned()
        } else {
            "Off".to_owned()
        }
    }

    /// Seconds between the snapshot's timestamp and `now` (epoch
    /// seconds); `Err` exactly when the timestamp does not parse.
    pub fn get_seconds_since_last(&self, now: i64) -> (r: Result<i64, ParseError>)
        requires
            -CLOCK_BOUND <= now <= CLOCK_BOUND,
        ensures
            r is Ok <==> parsed_epoch(self.last_update@) is Some,
            (r matches Ok(d) ==> parsed_epoch(self.last_update@) == Some(now - d as int)
                && -13_000_000_000_000_000 <= d <= 13_000_000_000_000_000),
    {
        seconds_since(self.last_update.as_str(), now)
    }

    /// The age label for the snapshot, given the current epoch seconds;
    /// `Parsing error` when the timestamp does not parse.
    pub fn get_last_update_string(&self, now: i64) -> (r: String)
        requires
            -CLOCK_BOUND <= now <= CLOCK_BOUND,
        ensures
            parsed_epoch(self.last_update@) is None ==> r@ == "Parsing error"@,
            (parsed_epoch(self.last_update@) matches Some(t) ==> r@ == last_update_label(
                now - t,
            )),
    {
        match self.get_seconds_since_last(now) {
            Err(_) => "Parsing error".to_owned(),
            Ok(d) => format_last_update_label(d),
        }
    }

    /// The connection label for the snapshot, given the current epoch
    /// seconds; `Parsing error` when the timestamp does not parse.
    pub fn get_connection_status_string(&self, now: i64) -> (r: String)
        requires
            -CLOCK_BOUND <= now <= CLOCK_BOUND,
        ensures
            parsed_epoch(self.last_update@) is None ==> r@ == "Parsing error"@,
            (parsed_epoch(self.last_update@) matches Some(t) ==> r@ == connection_label(now - t)),
    {
        match self.get_seconds_since_last(now) {
            Err(_) => "Parsing error".to_owned(),
            Ok(d) => format_connection_label(d),
        }
    }

    /// The running label: `Not Running` whenever the drive's running
    /// flag is clear, whatever the elapsed time; otherwise `Running`
    /// only while the snapshot is at most ten minutes old.
    pub fn get_running_status_string(&self, now: i64) -> (r: String)
        requires
            -CLOCK_BOUND <= now <= CLOCK_BOUND,
        ensures
            !self.vsd_running ==> r@ == "Not Running"@,
            self.vsd_running && parsed_epoch(self.last_update@) is None ==> r@
                == "Parsing error"@,
            (parsed_epoch(self.last_update@) matches Some(t) ==> (self.vsd_running ==> r@
                == running_label(now - t))),
    {
        if !self.vsd_running {
            return "Not Running".to_owned();
        }
        match self.get_seconds_since_last(now) {
            Err(_) => "Parsing error".to_owned(),
            Ok(d) => format_running_label(d),
        }
    }
}

} // verus!
