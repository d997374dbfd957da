use vstd::prelude::*;
use vstd::string::StringExecFns;

use crate::config::Config;
use crate::schedule::{time_until, time_until_spec, ScheduleError};
use crate::state::Toggle;

verus! {

/// What the loop does at a wake: enter downtime, or leave it.
#[derive(Clone, Copy, Debug, PartialEq, Eq, Structural)]
pub enum CycleAction {
    /// Back up the hosts file, append the blocklist, close the browser.
    ApplyBlock,
    /// Overwrite the hosts file with the backup.
    Restore,
}

/// One planned transition of the scheduling loop: how long to sleep, what
/// to do at the wake, and the state to persist afterwards.
#[derive(Clone, Copy, Debug, PartialEq, Eq, Structural)]
pub struct CyclePlan {
    pub sleep_seconds: u32,
    pub action: CycleAction,
    pub next_state: Toggle,
}

/// From `Disabled` the loop waits for the enable transition; from
/// `Enabled`, for the disable transition.
pub open spec fn seeking_enable(state: Toggle) -> bool {
    state is Disabled
}

/// The toggle state after a wake: the opposite of the one before it.
pub open spec fn flipped(state: Toggle) -> Toggle {
    if state is Disabled {
        Toggle::Enabled
    } else {
        Toggle::Disabled
    }
}

/// What a wake from a given state does: entering downtime applies the
/// block, leaving it restores the backup.
pub open spec fn cycle_action(state: Toggle) -> CycleAction {
    if state is Disabled {
        CycleAction::ApplyBlock
    } else {
        CycleAction::Restore
    }
}

/// The whole transition the loop takes from a state at a given second of
/// the day: the schedule calculator's wait toward the relevant transition
/// time, the wake's action, and the flipped state to persist.
pub open spec fn plan_cycle_spec(state: Toggle, config: Config, now: int) -> Result<
    CyclePlan,
    ScheduleError,
> {
    match time_until_spec(config.seek_time(seeking_enable(state)), now) {
        Ok(d) => Ok(
            (CyclePlan { sleep_seconds: d, action: cycle_action(state), next_state: flipped(state) }),
        ),
        Err(e) => Err(e),
    }
}

/// Plans one cycle of the scheduling loop. From `Disabled` it waits for the
/// enable time, then applies the block and moves to `Enabled`; from
/// `Enabled` it waits for the disable time, then restores and moves to
/// `Disabled`. A failure of the schedule calculator is handed through and
/// aborts the cycle.
pub fn plan_cycle(state: Toggle, config: &Config, now_second_of_day: u32) -> (r: Result<
    CyclePlan,
    ScheduleError,
>)
    requires
        now_second_of_day < 86400,
    ensures
        r == plan_cycle_spec(state, *config, now_second_of_day as int),
        r matches Ok(p) ==> 0 < p.sleep_seconds <= 86400,
        r is Ok <==> config.seek_time(seeking_enable(state)).is_valid(),
{
    let seek = match state {
        Toggle::Disabled => true,
        Toggle::Enabled => false,
    };
    match time_until(seek, config, now_second_of_day) {
        Ok(d) => Ok(
            CyclePlan {
                sleep_seconds: d,
                action: match state {
                    Toggle::Disabled => CycleAction::ApplyBlock,
                    Toggle::Enabled => CycleAction::Restore,
                },
                next_state: match state {
                    Toggle::Disabled => Toggle::Enabled,
                    Toggle::Enabled => Toggle::Disabled,
                },
            },
        ),
        Err(e) => Err(e),
    }
}

/// The notification shown at a wake, chosen by the state the wake leaves:
/// entering downtime announces the block, leaving it announces the end.
pub fn wake_message(state: Toggle) -> (r: String)
    ensures
        state is Disabled ==> r@ == "Downtime is now active, your browser will be closed"@,
        state is Enabled ==> r@ == "Downtime is over, you can access your sites now"@,
{
    match state {
        Toggle::Disabled => String::from_str("Downtime is now active, your browser will be closed"),
        Toggle::Enabled => String::from_str("Downtime is over, you can access your sites now"),
    }
}

/// The invocation of the OS process-termination facility for the configured
/// browser: the program and its arguments, terminating by executable name.
pub fn taskkill_invocation(browser_exe: &String) -> (r: Vec<String>)
    ensures
        r@.len() == 3,
        r@[0]@ == "taskkill"@,
        r@[1]@ == "/im"@,
        r@[2]@ == browser_exe@,
{
    let mut r: Vec<String> = Vec::new();
    r.push(String::from_str("taskkill"));
    r.push(String::from_str("/im"));
    r.push(browser_exe.clone());
    r
}

} // verus!
