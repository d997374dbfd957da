use vstd::prelude::*;

use crate::config::{Config, TimeConfig};

verus! {

/// Why the schedule calculator rejected a configured time.
#[derive(Clone, Copy, Debug, PartialEq, Eq, Structural)]
pub enum ScheduleError {
    /// The configured hour is above 24 (24 itself means midnight).
    InvalidHour,
    /// The configured minute is above 59.
    InvalidMinute,
}

/// Hour 24 is a sentinel for midnight: it is normalized to hour 0 before
/// any instant is built from it.
pub open spec fn normalized_hour(hour: int) -> int {
    if hour == 24 {
        0
    } else {
        hour
    }
}

/// The second of the day (0-86399) at which a configured time falls, its
/// hour normalized.
pub open spec fn target_second_of_day(t: TimeConfig) -> int {
    normalized_hour(t.hour as int) * 3600 + (t.minute as int) * 60
}

/// Seconds from `now` (a second of the day) until the next occurrence of
/// `target`: when the target is not strictly in the future, it is advanced
/// by exactly one day.
pub open spec fn seconds_until(target: int, now: int) -> int {
    if target - now <= 0 {
        target - now + 86400
    } else {
        target - now
    }
}

/// The schedule calculator's result on a configured time and a second of
/// the day: the hour is checked first, then the minute, and a valid time
/// yields the seconds to wait.
pub open spec fn time_until_spec(t: TimeConfig, now: int) -> Result<u32, ScheduleError> {
    if t.hour > 24 {
        Err(ScheduleError::InvalidHour)
    } else if t.minute > 59 {
        Err(ScheduleError::InvalidMinute)
    } else {
        Ok(seconds_until(target_second_of_day(t), now) as u32)
    }
}

/// Duration monotonic positivity law: for every second of the day and every
/// valid configured time, the wait is strictly positive and at most one day.
pub proof fn lemma_duration_positive_bounded(t: TimeConfig, now: int)
    requires
        t.is_valid(),
        0 <= now < 86400,
    ensures
        0 < seconds_until(target_second_of_day(t), now) <= 86400,
{
}

/// Hour-24 normalization law: an hour of 24 behaves identically to hour 0
/// when the next target instant is computed, for every minute and every
/// second of the day.
pub proof fn lemma_hour_24_normalization(minute: u32, now: int)
    ensures
        target_second_of_day((TimeConfig { hour: 24, minute })) == target_second_of_day(
            (TimeConfig { hour: 0, minute }),
        ),
        time_until_spec((TimeConfig { hour: 24, minute }), now) == time_until_spec(
            (TimeConfig { hour: 0, minute }),
            now,
        ),
{
}

/// Schedule calculator: how long to sleep, from `now_second_of_day`, until
/// the next transition — the enable time when `seeking_enable`, the disable
/// time otherwise. A valid time always yields a duration in (0, 86400].
pub fn time_until(seeking_enable: bool, config: &Config, now_second_of_day: u32) -> (r: Result<
    u32,
    ScheduleError,
>)
    requires
        now_second_of_day < 86400,
    ensures
        r == time_until_spec(config.seek_time(seeking_enable), now_second_of_day as int),
        r matches Ok(d) ==> 0 < d <= 86400,
        r is Ok <==> config.seek_time(seeking_enable).is_valid(),
{
    let t = if seeking_enable {
        &config.enable_downtime
    } else {
        &config.disable_downtime
    };
    if t.hour > 24 {
        return Err(ScheduleError::InvalidHour);
    }
    if t.minute > 59 {
        return Err(ScheduleError::InvalidMinute);
    }
    let hour: u32 = if t.hour == 24 {
        0
    } else {
        t.hour
    };
    let target: u32 = hour * 3600 + t.minute * 60;
    if target <= now_second_of_day {
        Ok(target + 86400 - now_second_of_day)
    } else {
        Ok(target - now_second_of_day)
    }
}

/// Relies on chrono::Local::now and chrono::Timelike::num_seconds_from_midnight:
/// the number of non-leap seconds past the last local midnight, which chrono
/// documents as an integer in 0-86399.
#[verifier::external_body]
fn current_second_of_day() -> (r: u32)
    ensures
        r < 86400,
{
    chrono::Timelike::num_seconds_from_midnight(&chrono::Local::now())
}

/// How long the loop should sleep, measured from the current local time,
/// until the next transition. The current time is read from the clock, so
/// only what holds of every reading is promised: a valid configured time
/// yields a duration in (0, 86400], and an invalid one yields exactly the
/// error `time_until` gives it.
pub fn next_sleep_duration(seeking_enable: bool, config: &Config) -> (r: Result<
    u32,
    ScheduleError,
>)
    ensures
        r matches Ok(d) ==> 0 < d <= 86400,
        r is Ok <==> config.seek_time(seeking_enable).is_valid(),
        r == Err::<u32, ScheduleError>(ScheduleError::InvalidHour) <==> config.seek_time(
            seeking_enable,
        ).hour > 24,
        r == Err::<u32, ScheduleError>(ScheduleError::InvalidMinute) <==> (config.seek_time(
            seeking_enable,
        ).hour <= 24 && config.seek_time(seeking_enable).minute > 59),
{
    let now = current_second_of_day();
    time_until(seeking_enable, config, now)
}

} // verus!
