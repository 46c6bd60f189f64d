//! Process-wide polling settings.
use vstd::prelude::*;

verus! {

/// The shortest polling interval, in seconds, that the monitor will use.
pub const MIN_INTERVAL_SECS: u64 = 5;

/// The interval actually used for a requested one: never below the minimum.
pub open spec fn effective_interval_spec(requested: u64) -> u64 {
    if requested < MIN_INTERVAL_SECS {
        MIN_INTERVAL_SECS
    } else {
        requested
    }
}

/// Clamps a requested polling interval up to the minimum.
pub fn effective_interval(requested: u64) -> (r: u64)
    ensures
        r == effective_interval_spec(requested),
        r >= MIN_INTERVAL_SECS,
        r >= requested,
{
    if requested < MIN_INTERVAL_SECS {
        MIN_INTERVAL_SECS
    } else {
        requested
    }
}

/// What a front end hands to the monitor: the catalog file and the requested
/// polling interval in seconds.
#[derive(Debug, Clone)]
pub struct UserInput {
    pub file_name: String,
    pub duration: u64,
}

impl UserInput {
    pub fn new(file_name: String, duration: u64) -> (r: UserInput)
        ensures
            r.file_name@ == file_name@,
            r.duration == duration,
    {
        UserInput { file_name, duration }
    }

    /// The interval that the probe loops will wait between two probes.
    pub fn interval(&self) -> (r: u64)
        ensures
            r == effective_interval_spec(self.duration),
    {
        effective_interval(self.duration)
    }
}

impl Default for UserInput {
    fn default() -> (r: UserInput)
        ensures
            r.file_name@ == Seq::<char>::empty(),
            r.duration == 0,
    {
        UserInput { file_name: String::new(), duration: 0 }
    }
}

} // verus!
