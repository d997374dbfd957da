use downtime::config::{Config, TimeConfig};
use downtime::cycle::{plan_cycle, taskkill_invocation, wake_message, CycleAction};
use downtime::hosts::{apply_block, restore_contents};
use downtime::schedule::ScheduleError;
use downtime::state::{parse_state, render_state, Toggle};

fn scenario_config() -> Config {
    Config {
        blocked_sites: vec![String::from("example.com")],
        browser_exe: String::from("firefox.exe"),
        enable_downtime: TimeConfig { hour: 22, minute: 0 },
        disable_downtime: TimeConfig { hour: 8, minute: 0 },
    }
}

#[test]
fn end_to_end_block_then_restore() {
    let config = scenario_config();
    let hosts = String::from("127.0.0.1 localhost\n");

    // Starting Disabled at 21:59: sleep one minute, then enter downtime.
    let state = parse_state(None);
    assert_eq!(state, Toggle::Disabled);
    let plan = plan_cycle(state, &config, 21 * 3600 + 59 * 60).unwrap();
    assert_eq!(plan.sleep_seconds, 60);
    assert_eq!(plan.action, CycleAction::ApplyBlock);
    assert_eq!(plan.next_state, Toggle::Enabled);

    // The wake backs the hosts file up, appends the redirect, closes the
    // browser, and persists Enabled.
    let mutation = apply_block(&hosts, &config.blocked_sites);
    assert_eq!(mutation.backup, hosts);
    assert_eq!(mutation.mutated, "127.0.0.1 localhost\n0.0.0.0 example.com\n");
    let kill = taskkill_invocation(&config.browser_exe);
    assert_eq!(kill, vec!["taskkill", "/im", "firefox.exe"]);
    let persisted = render_state(plan.next_state);
    assert_eq!(persisted, "enabled");
    assert_eq!(parse_state(Some(&persisted)), Toggle::Enabled);

    // From Enabled at 22:00: the disable time, 08:00, is ten hours away;
    // the next wake restores the pre-block content and persists Disabled.
    let plan = plan_cycle(Toggle::Enabled, &config, 22 * 3600).unwrap();
    assert_eq!(plan.sleep_seconds, 10 * 3600);
    assert_eq!(plan.action, CycleAction::Restore);
    assert_eq!(plan.next_state, Toggle::Disabled);
    let restored = restore_contents(&mutation.backup);
    assert_eq!(restored, hosts);
    let persisted = render_state(plan.next_state);
    assert_eq!(persisted, "disabled");
    assert_eq!(parse_state(Some(&persisted)), Toggle::Disabled);
}

#[test]
fn invalid_configured_time_aborts_the_cycle() {
    let mut config = scenario_config();
    config.enable_downtime = TimeConfig { hour: 26, minute: 0 };
    assert_eq!(
        plan_cycle(Toggle::Disabled, &config, 0),
        Err(ScheduleError::InvalidHour)
    );
    config.enable_downtime = TimeConfig { hour: 22, minute: 75 };
    assert_eq!(
        plan_cycle(Toggle::Disabled, &config, 0),
        Err(ScheduleError::InvalidMinute)
    );
}

#[test]
fn wake_messages_match_the_transition() {
    assert_eq!(
        wake_message(Toggle::Disabled),
        "Downtime is now active, your browser will be closed"
    );
    assert_eq!(
        wake_message(Toggle::Enabled),
        "Downtime is over, you can access your sites now"
    );
}

#[test]
fn hour_24_in_configuration_means_midnight() {
    let mut config = scenario_config();
    config.enable_downtime = TimeConfig { hour: 24, minute: 0 };
    // At 23:00, midnight is one hour away.
    let plan = plan_cycle(Toggle::Disabled, &config, 23 * 3600).unwrap();
    assert_eq!(plan.sleep_seconds, 3600);
}
