use nixos_upgrade::config::{load_config, ConfigSource, NixosUpgradeConfig};
use nixos_upgrade::error::{ExitReport, NixosUpgradeError};
use nixos_upgrade::image::SystemImageIdentity;
use nixos_upgrade::upgrade::{next_action, step, Action, Clearance, Event, RebootOutcome, RunState};
use nixos_upgrade::window::RebootWindow;

/// Feeds `events` to a run one by one, and returns each pending action met
/// on the way, the last state's included, with the state reached.
fn drive(config: &NixosUpgradeConfig, events: Vec<Event>) -> (Vec<Action>, RunState) {
    let mut state = RunState::new();
    let mut actions = vec![next_action(config, &state)];
    for event in events {
        state = step(config, state, event);
        actions.push(next_action(config, &state));
    }
    (actions, state)
}

fn window(lower: &str, upper: &str) -> RebootWindow {
    RebootWindow { lower: lower.to_string(), upper: upper.to_string() }
}

fn rebooting(bounds: Option<(&str, &str)>) -> NixosUpgradeConfig {
    NixosUpgradeConfig {
        allow_reboot: true,
        reboot_window: bounds.map(|(lower, upper)| window(lower, upper)),
        ..NixosUpgradeConfig::default()
    }
}

fn exited(code: i32) -> Event {
    let text = format!("exit status: {}", code);
    Event::RebuildExited(Ok(ExitReport { code: Some(code), text }))
}

fn images(booted: &str, built: &str) -> Event {
    Event::ImagesResolved(Ok(SystemImageIdentity {
        booted: booted.as_bytes().to_vec(),
        built: built.as_bytes().to_vec(),
    }))
}

fn count(actions: &[Action], wanted: fn(&Action) -> bool) -> usize {
    actions.iter().filter(|action| wanted(action)).count()
}

fn is_rebuild(action: &Action) -> bool {
    matches!(action, Action::Rebuild(_))
}

fn is_reboot(action: &Action) -> bool {
    matches!(action, Action::Reboot(_))
}

fn is_resolve(action: &Action) -> bool {
    matches!(action, Action::ResolveImages { .. })
}

fn is_clock(action: &Action) -> bool {
    matches!(action, Action::ReadClock(_))
}

#[test]
fn a_run_begins_with_the_probe() {
    let state = RunState::new();
    assert_eq!(state, RunState::Start);
    assert!(!state.is_terminal());
    assert_eq!(next_action(&NixosUpgradeConfig::default(), &state), Action::ProbeNetwork);
    assert_eq!(state.outcome(), None);
}

#[test]
fn no_config_file_and_a_good_build_complete_without_reboot() {
    let config = load_config(ConfigSource::Missing).unwrap();
    let (actions, state) = drive(&config, vec![Event::NetworkProbed(Ok(true)), exited(0)]);
    assert_eq!(
        actions,
        vec![
            Action::ProbeNetwork,
            Action::Rebuild(
                vec!["nixos-rebuild", "boot", "--upgrade", "--no-build-output"]
                    .into_iter()
                    .map(String::from)
                    .collect()
            ),
            Action::Stop,
        ]
    );
    assert_eq!(count(&actions, is_rebuild), 1);
    assert_eq!(count(&actions, is_reboot), 0);
    assert_eq!(count(&actions, is_resolve), 0);
    assert_eq!(state, RunState::Done(RebootOutcome::NotConsidered));
    assert!(state.is_terminal());
    assert_eq!(state.outcome(), Some(Ok(RebootOutcome::NotConsidered)));
}

#[test]
fn no_network_ends_the_run_before_any_build() {
    let config = NixosUpgradeConfig::default();
    let (actions, state) = drive(&config, vec![Event::NetworkProbed(Ok(false))]);
    assert_eq!(actions, vec![Action::ProbeNetwork, Action::Stop]);
    assert_eq!(count(&actions, is_rebuild), 0);
    assert_eq!(state, RunState::Failed(NixosUpgradeError::NetworkUnavailable));
    assert_eq!(state.outcome(), Some(Err(NixosUpgradeError::NetworkUnavailable)));
}

#[test]
fn a_failed_probe_is_passed_on_as_it_is() {
    let config = NixosUpgradeConfig::default();
    let error = NixosUpgradeError::NetworkCheck("connection timed out".to_string());
    let (actions, state) = drive(&config, vec![Event::NetworkProbed(Err(error.clone()))]);
    assert_eq!(actions, vec![Action::ProbeNetwork, Action::Stop]);
    assert_eq!(state, RunState::Failed(error));
}

#[test]
fn midnight_window_lets_a_late_reboot_proceed() {
    let config = rebooting(Some(("22:00", "06:00")));
    let (actions, state) = drive(
        &config,
        vec![
            Event::NetworkProbed(Ok(true)),
            exited(0),
            images("/nix/store/a\n", "/nix/store/b\n"),
            Event::ClockRead(Ok("23:30".to_string())),
        ],
    );
    assert_eq!(state, RunState::WindowChecked(Clearance::WithinWindow));
    assert_eq!(
        actions.last(),
        Some(&Action::Reboot(
            vec!["shutdown", "-r", "+1", "NixOS upgrade requires reboot"]
                .into_iter()
                .map(String::from)
                .collect()
        ))
    );
    let done = step(&config, state, Event::RebootScheduled(Ok(())));
    assert_eq!(done, RunState::Done(RebootOutcome::Requested));
    assert_eq!(done.outcome(), Some(Ok(RebootOutcome::Requested)));
}

#[test]
fn midnight_window_skips_a_midday_reboot() {
    let config = rebooting(Some(("22:00", "06:00")));
    let (actions, state) = drive(
        &config,
        vec![
            Event::NetworkProbed(Ok(true)),
            exited(0),
            images("/nix/store/a\n", "/nix/store/b\n"),
            Event::ClockRead(Ok("12:00".to_string())),
        ],
    );
    assert_eq!(count(&actions, is_reboot), 0);
    assert_eq!(count(&actions, is_clock), 1);
    assert_eq!(actions.last(), Some(&Action::Stop));
    assert_eq!(state, RunState::Done(RebootOutcome::Deferred));
    assert_eq!(state.outcome(), Some(Ok(RebootOutcome::Deferred)));
}

#[test]
fn a_time_on_the_bound_defers_the_reboot() {
    let config = rebooting(Some(("22:00", "06:00")));
    for now in ["22:00", "06:00"] {
        let (_, state) = drive(
            &config,
            vec![
                Event::NetworkProbed(Ok(true)),
                exited(0),
                images("a", "b"),
                Event::ClockRead(Ok(now.to_string())),
            ],
        );
        assert_eq!(state, RunState::Done(RebootOutcome::Deferred));
    }
}

#[test]
fn a_failing_clock_does_not_hold_back_the_reboot() {
    let config = rebooting(Some(("22:00", "06:00")));
    let (actions, state) = drive(
        &config,
        vec![
            Event::NetworkProbed(Ok(true)),
            exited(0),
            images("a", "b"),
            Event::ClockRead(Err("Failed to get current time".to_string())),
        ],
    );
    assert_eq!(state, RunState::WindowChecked(Clearance::ClockUnavailable));
    assert_eq!(count(&actions, is_reboot), 1);
}

#[test]
fn without_a_window_the_reboot_follows_the_comparison() {
    let config = rebooting(None);
    let (actions, state) =
        drive(&config, vec![Event::NetworkProbed(Ok(true)), exited(0), images("a", "b")]);
    assert_eq!(state, RunState::WindowChecked(Clearance::Unrestricted));
    assert_eq!(count(&actions, is_clock), 0);
    assert_eq!(count(&actions, is_reboot), 1);
}

#[test]
fn identical_images_need_no_reboot() {
    for config in [rebooting(None), rebooting(Some(("00:00", "23:59")))] {
        let (actions, state) = drive(
            &config,
            vec![Event::NetworkProbed(Ok(true)), exited(0), images("/nix/a\n", "/nix/a\n")],
        );
        assert_eq!(state, RunState::Done(RebootOutcome::NotNeeded));
        assert_eq!(count(&actions, is_reboot), 0);
        assert_eq!(count(&actions, is_clock), 0);
    }
}

#[test]
fn images_are_compared_once_when_reboot_is_allowed() {
    let config = rebooting(None);
    let (actions, state) = drive(&config, vec![Event::NetworkProbed(Ok(true)), exited(0)]);
    assert_eq!(state, RunState::Upgraded);
    assert_eq!(
        actions.last(),
        Some(&Action::ResolveImages {
            booted: vec![
                "readlink",
                "-f",
                "/run/booted-system/kernel",
                "/run/booted-system/initrd",
                "/run/booted-system/kernel-modules",
            ]
            .into_iter()
            .map(String::from)
            .collect(),
            built: vec![
                "readlink",
                "-f",
                "/nix/var/nix/profiles/system/kernel",
                "/nix/var/nix/profiles/system/initrd",
                "/nix/var/nix/profiles/system/kernel-modules",
            ]
            .into_iter()
            .map(String::from)
            .collect(),
        })
    );
}

#[test]
fn images_are_not_compared_when_reboot_is_not_allowed() {
    let config = NixosUpgradeConfig {
        reboot_window: Some(window("22:00", "06:00")),
        ..NixosUpgradeConfig::default()
    };
    let (actions, state) = drive(
        &config,
        vec![
            Event::NetworkProbed(Ok(true)),
            exited(0),
            images("a", "b"),
            Event::ClockRead(Ok("23:30".to_string())),
            Event::RebootScheduled(Ok(())),
        ],
    );
    assert_eq!(count(&actions, is_resolve), 0);
    assert_eq!(count(&actions, is_clock), 0);
    assert_eq!(count(&actions, is_reboot), 0);
    assert_eq!(state, RunState::Done(RebootOutcome::NotConsidered));
}

#[test]
fn images_are_not_compared_after_a_switch() {
    let config = NixosUpgradeConfig { operation: "switch".to_string(), ..rebooting(None) };
    let (actions, state) = drive(&config, vec![Event::NetworkProbed(Ok(true)), exited(0)]);
    assert_eq!(count(&actions, is_resolve), 0);
    assert_eq!(state, RunState::Done(RebootOutcome::NotConsidered));
}

#[test]
fn a_failing_build_ends_the_run_with_its_status() {
    let config = rebooting(None);
    let (actions, state) = drive(&config, vec![Event::NetworkProbed(Ok(true)), exited(1)]);
    assert_eq!(
        state,
        RunState::Failed(NixosUpgradeError::NixosRebuildFailed(ExitReport {
            code: Some(1),
            text: "exit status: 1".to_string(),
        }))
    );
    assert_eq!(count(&actions, is_rebuild), 1);
    assert_eq!(count(&actions, is_resolve), 0);
}

#[test]
fn a_build_ended_by_a_signal_is_a_failure() {
    let config = NixosUpgradeConfig::default();
    let report = ExitReport { code: None, text: "signal: 15 (SIGTERM)".to_string() };
    let (_, state) = drive(
        &config,
        vec![Event::NetworkProbed(Ok(true)), Event::RebuildExited(Ok(report.clone()))],
    );
    assert_eq!(state, RunState::Failed(NixosUpgradeError::NixosRebuildFailed(report)));
}

#[test]
fn a_build_that_cannot_start_is_a_spawn_error() {
    let config = NixosUpgradeConfig::default();
    let (_, state) = drive(
        &config,
        vec![
            Event::NetworkProbed(Ok(true)),
            Event::RebuildExited(Err("No such file or directory (os error 2)".to_string())),
        ],
    );
    assert_eq!(
        state,
        RunState::Failed(NixosUpgradeError::NixosRebuild(
            "No such file or directory (os error 2)".to_string()
        ))
    );
}

#[test]
fn images_that_cannot_be_resolved_end_the_run() {
    let config = rebooting(None);
    let (actions, state) = drive(
        &config,
        vec![
            Event::NetworkProbed(Ok(true)),
            exited(0),
            Event::ImagesResolved(Err("readlink: not found".to_string())),
        ],
    );
    assert_eq!(
        state,
        RunState::Failed(NixosUpgradeError::NixosRebuild("readlink: not found".to_string()))
    );
    assert_eq!(count(&actions, is_reboot), 0);
}

#[test]
fn a_reboot_that_cannot_be_scheduled_ends_the_run() {
    let config = rebooting(None);
    let (_, state) = drive(
        &config,
        vec![
            Event::NetworkProbed(Ok(true)),
            exited(0),
            images("a", "b"),
            Event::RebootScheduled(Err("shutdown: not found".to_string())),
        ],
    );
    assert_eq!(
        state,
        RunState::Failed(NixosUpgradeError::NixosRebuild("shutdown: not found".to_string()))
    );
}

#[test]
fn an_event_out_of_turn_changes_nothing() {
    let config = rebooting(Some(("22:00", "06:00")));
    let (actions, state) = drive(
        &config,
        vec![
            exited(0),
            images("a", "b"),
            Event::ClockRead(Ok("23:30".to_string())),
            Event::RebootScheduled(Ok(())),
        ],
    );
    assert_eq!(state, RunState::Start);
    assert!(actions.iter().all(|action| *action == Action::ProbeNetwork));
    let (_, state) = drive(
        &config,
        vec![Event::NetworkProbed(Ok(true)), Event::NetworkProbed(Ok(false)), images("a", "b")],
    );
    assert_eq!(state, RunState::NetworkChecked);
}

#[test]
fn a_run_that_has_ended_stays_as_it_is() {
    let config = rebooting(None);
    let (_, done) = drive(
        &config,
        vec![
            Event::NetworkProbed(Ok(true)),
            exited(0),
            images("a", "a"),
            Event::NetworkProbed(Ok(true)),
            exited(0),
            images("a", "b"),
            Event::RebootScheduled(Ok(())),
        ],
    );
    assert_eq!(done, RunState::Done(RebootOutcome::NotNeeded));
    let (_, failed) = drive(
        &config,
        vec![Event::NetworkProbed(Ok(false)), Event::NetworkProbed(Ok(true)), exited(0)],
    );
    assert_eq!(failed, RunState::Failed(NixosUpgradeError::NetworkUnavailable));
}

#[test]
fn the_clock_output_is_trimmed_before_it_is_judged() {
    let config = rebooting(Some(("22:00", "06:00")));
    let (_, late) = drive(
        &config,
        vec![
            Event::NetworkProbed(Ok(true)),
            exited(0),
            images("a", "b"),
            Event::ClockRead(Ok("23:30\n".to_string())),
        ],
    );
    assert_eq!(late, RunState::WindowChecked(Clearance::WithinWindow));
    let (_, bound) = drive(
        &config,
        vec![
            Event::NetworkProbed(Ok(true)),
            exited(0),
            images("a", "b"),
            Event::ClockRead(Ok(" 06:00\n".to_string())),
        ],
    );
    assert_eq!(bound, RunState::Done(RebootOutcome::Deferred));
}
