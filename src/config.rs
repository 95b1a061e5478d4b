//! The settings that a logging session runs with.
use vstd::prelude::*;

verus! {

/// Where to read key events from and where to write their text.
#[derive(Debug)]
pub struct Config {
    /// Path of the event device to read.
    pub device_path: String,
    /// Path of the file that receives the text.
    pub filename: String,
}

impl Config {
    /// A configuration reading `device_path` and writing to `filename`.
    pub fn new(device_path: String, filename: String) -> (r: Config)
        ensures
            r.device_path@ == device_path@,
            r.filename@ == filename@,
    {
        Config { device_path, filename }
    }
}

} // verus!
