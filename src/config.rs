use vstd::prelude::*;

verus! {

/// Settings read from the user's configuration file.
pub struct Config {
    /// Zones to convert to when none are given otherwise.
    pub timezones: Vec<String>,
}

} // verus!
