//! Telemetry interpretation layer for a fan-monitoring dashboard.
//!
//! The library turns a raw telemetry snapshot (sensor readings, status
//! bits, a timestamp string) into the human-facing labels the dashboard
//! shows, and keeps the session state (selected fan, cached snapshot,
//! navigation throttling).

pub mod decimal;
pub mod display;
pub mod fan;
pub mod fan_data;
pub mod session;
pub mod time_status;

pub use fan::Fan;
pub use fan_data::{FanData, Reading};
pub use session::App;
