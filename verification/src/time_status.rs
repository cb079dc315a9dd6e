//! Time-derived status: parsing the snapshot's `YYYY-MM-DD HH:MM:SS`
//! timestamp, the elapsed-seconds arithmetic, and the three label rules
//! built on it (last-update age, connection status, running status).
//!
//! The current time is always an explicit parameter, never read from a
//! clock here.

use vstd::prelude::*;
use vstd::string::StringExecFns;

use crate::decimal::{dec_int, i64_to_dec_string};

verus! {

/// A clock value (epoch seconds or epoch milliseconds) the library's
/// time arithmetic accepts. Generous beyond any real wall clock; only
/// there so that differences of clock values stay inside `i64`.
pub const CLOCK_BOUND: i64 = 4_000_000_000_000_000;

/// The stored timestamp string did not match `YYYY-MM-DD HH:MM:SS`.
#[derive(Clone, Copy, Debug, PartialEq, Eq, Structural)]
pub struct ParseError;

/// What parsing a timestamp string of the fixed form
/// `YYYY-MM-DD HH:MM:SS` yields: `Some` of the epoch seconds of the
/// named wall-clock time, or `None` when the string does not match the
/// format or names no valid date-time. The result depends on the
/// characters alone.
pub uninterp spec fn parsed_epoch(s: Seq<char>) -> Option<int>;

/// Relies on `chrono::NaiveDateTime::parse_from_str` with the fixed
/// format `"%Y-%m-%d %H:%M:%S"` for the parse, and on
/// `NaiveDateTime::and_utc` plus `DateTime::timestamp` for the
/// epoch-second conversion. The bound on the result follows from
/// chrono's documented `NaiveDate::MIN`/`MAX` range (years within about
/// +/-262143, so under 9_000_000_000_000_000 epoch seconds either way).
#[verifier::external_body]
fn parse_timestamp(s: &str) -> (r: Option<i64>)
    ensures
        r is Some <==> parsed_epoch(s@) is Some,
        (r matches Some(t) ==> parsed_epoch(s@) == Some(t as int)
            && -9_000_000_000_000_000 <= t <= 9_000_000_000_000_000),
{
    match chrono::NaiveDateTime::parse_from_str(s, "%Y-%m-%d %H:%M:%S") {
        Ok(dt) => Some(dt.and_utc().timestamp()),
        Err(_) => None,
    }
}

/// Seconds elapsed between the stored timestamp and `now` (epoch
/// seconds): `now` minus the parsed time, negative when the stored time
/// lies in the future. `Err` exactly when the string does not parse.
pub fn seconds_since(last_update: &str, now: i64) -> (r: Result<i64, ParseError>)
    requires
        -CLOCK_BOUND <= now <= CLOCK_BOUND,
    ensures
        r is Ok <==> parsed_epoch(last_update@) is Some,
        (r matches Ok(d) ==> parsed_epoch(last_update@) == Some(now - d as int)
            && -13_000_000_000_000_000 <= d <= 13_000_000_000_000_000),
{
    match parse_timestamp(last_update) {
        Some(t) => Ok(now - t),
        None => Err(ParseError),
    }
}

/// Division truncating toward zero, as Rust's `/` computes it, for a
/// positive divisor.
pub open spec fn trunc_div(a: int, b: int) -> int {
    if a >= 0 {
        a / b
    } else {
        -((-a) / b)
    }
}

/// `a / b` with Rust's truncation toward zero.
fn trunc_div_i64(a: i64, b: i64) -> (r: i64)
    requires
        b > 0,
        i64::MIN < a,
    ensures
        r == trunc_div(a as int, b as int),
{
    if a >= 0 {
        ((a as u64) / (b as u64)) as i64
    } else {
        let mag: u64 = (-a) as u64;
        -((mag / (b as u64)) as i64)
    }
}

/// The age label for `d` elapsed seconds. More than a day becomes
/// `Days Ago`, more than an hour `Hours Ago`, less than an hour
/// `Minutes Ago` (with truncating division, so a small negative age
/// reads `0 Minutes Ago`); exactly one hour matches none of the three
/// guards and falls through to `Matching error`.
pub open spec fn last_update_label(d: int) -> Seq<char> {
    if d > 86400 {
        dec_int(d / 86400) + " Days Ago"@
    } else if d > 3600 {
        dec_int(d / 3600) + " Hours Ago"@
    } else if d < 3600 {
        dec_int(trunc_div(d, 60)) + " Minutes Ago"@
    } else {
        "Matching error"@
    }
}

/// The connection label for `d` elapsed seconds: up to ten minutes
/// counts as `Online`, anything older as `Offline`.
pub open spec fn connection_label(d: int) -> Seq<char> {
    if d <= 600 {
        "Online"@
    } else {
        "Offline"@
    }
}

/// The running label for a drive whose running flag is set: a snapshot
/// at most ten minutes old counts as `Running`, a staler one as
/// `Not Running`.
pub open spec fn running_label(d: int) -> Seq<char> {
    if d <= 600 {
        "Running"@
    } else {
        "Not Running"@
    }
}

/// Renders the age label for `d` elapsed seconds.
pub fn format_last_update_label(d: i64) -> (r: String)
    requires
        i64::MIN < d,
    ensures
        r@ == last_update_label(d as int),
{
    if d > 86400 {
        let q = trunc_div_i64(d, 86400);
        let mut s = i64_to_dec_string(q);
        s.append(" Days Ago");
        s
    } else if d > 3600 {
        let q = trunc_div_i64(d, 3600);
        let mut s = i64_to_dec_string(q);
        s.append(" Hours Ago");
        s
    } else if d < 3600 {
        let q = trunc_div_i64(d, 60);
        let mut s = i64_to_dec_string(q);
        s.append(" Minutes Ago");
        s
    } else {
        "Matching error".to_owned()
    }
}

/// Renders the connection label for `d` elapsed seconds.
pub fn format_connection_label(d: i64) -> (r: String)
    ensures
        r@ == connection_label(d as int),
{
    if d <= 600 {
        "Online".to_owned()
    } else {
        "Offline".to_owned()
    }
}

/// Renders the running label for `d` elapsed seconds, for a drive whose
/// running flag is set.
pub fn format_running_label(d: i64) -> (r: String)
    ensures
        r@ == running_label(d as int),
{
    if d <= 600 {
        "Running".to_owned()
    } else {
        "Not Running".to_owned()
    }
}

} // verus!
