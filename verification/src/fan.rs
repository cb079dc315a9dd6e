//! Fan identity: a display name, a stable serial number, and an optional
//! hardware address.

use vstd::prelude::*;

verus! {

/// One fan of the monitored fleet. Immutable once loaded.
#[derive(Clone, Debug)]
pub struct Fan {
    /// Display label; not required to be unique.
    pub name: String,
    /// Stable identifier; selects the fan's telemetry stream.
    pub serial_number: String,
    /// Optional hardware identifier.
    pub mac: Option<String>,
}

impl Fan {
    /// The fan's display name, as shown on the dashboard tab.
    pub fn get_name(&self) -> (r: &str)
        ensures
            r@ == self.name@,
    {
        let name = &self.name;
        name
    }
}

} // verus!
