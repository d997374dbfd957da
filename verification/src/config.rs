use vstd::prelude::*;

verus! {

/// A wall-clock time of day from the configuration. An hour of 24 is a
/// sentinel that the schedule calculator normalizes to hour 0 (midnight);
/// any hour above 24, or a minute above 59, is rejected by the calculator.
#[derive(Clone, Copy, Debug, PartialEq, Eq, Structural)]
pub struct TimeConfig {
    pub hour: u32,
    pub minute: u32,
}

impl TimeConfig {
    /// A time the calculator accepts: hour 0-24 (24 meaning midnight),
    /// minute 0-59.
    pub open spec fn is_valid(self) -> bool {
        self.hour <= 24 && self.minute <= 59
    }
}

/// The configuration, loaded once at startup and immutable for the life of
/// the process: the domains to redirect while downtime is active, the
/// browser process to close when it begins, and the two daily trigger times.
pub struct Config {
    pub blocked_sites: Vec<String>,
    pub browser_exe: String,
    pub enable_downtime: TimeConfig,
    pub disable_downtime: TimeConfig,
}

impl Config {
    /// The time of day the loop is waiting for: the enable time while it
    /// seeks the enable transition, the disable time otherwise.
    pub open spec fn seek_time(self, seeking_enable: bool) -> TimeConfig {
        if seeking_enable {
            self.enable_downtime
        } else {
            self.disable_downtime
        }
    }
}

} // verus!
