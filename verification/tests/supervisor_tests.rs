use hypraway::command::build_command;
use hypraway::config::default_config;
use hypraway::power::is_on_battery;
use hypraway::supervisor::{
    plan_start, poll_step, spawn_follow_up, startup_message, switching_message,
    transition_message, PollAction,
};

fn probe(s: &str) -> Option<String> {
    Some(String::from(s))
}

#[test]
fn ac_to_battery_transition_fires_exactly_once() {
    let cfg = default_config();

    // Starting with the AC probe reading "1": active profile is `ac`.
    let start = is_on_battery(&probe("1\n"), &probe("Charging"));
    assert!(!start);
    let (mut state, initial_command) = plan_start(&cfg, start);
    assert_eq!(initial_command, build_command(&cfg.ac));

    let mut kills = 0;
    let mut respawns = 0;
    let mut running_command = initial_command;

    // AC probe removed, battery probe now "Discharging", over several polls.
    for _ in 0..5 {
        let now = is_on_battery(&None, &probe("Discharging"));
        assert!(now);
        let (next, action) = poll_step(&cfg, &state, now);
        state = next;
        if let PollAction::Transition { notify, on_battery, command } = action {
            assert!(notify);
            assert!(on_battery);
            kills += 1;
            respawns += 1;
            running_command = command;
        }
    }

    // Exactly one transition: the child was killed once and respawned once
    // with the battery profile's command.
    assert_eq!(kills, 1);
    assert_eq!(respawns, 1);
    assert_eq!(running_command, build_command(&cfg.battery));
    assert!(state.on_battery);
}

#[test]
fn single_shot_mode_spawns_once_kills_once_and_exits() {
    let mut cfg = default_config();
    cfg.check_interval = 0;

    let mut spawns = 0;
    let mut kills = 0;
    let mut polls = 0;

    // Probe once, run once.
    let start = is_on_battery(&probe("1"), &None);
    let (state, _command) = plan_start(&cfg, start);
    spawns += 1;

    // Immediately after the first spawn the supervisor stops, rather than
    // polling: exactly one kill, no second poll.
    match spawn_follow_up(&cfg) {
        PollAction::Exit => {
            kills += 1;
        }
        _ => loop {
            polls += 1;
            let now = is_on_battery(&probe("1"), &None);
            let (_, action) = poll_step(&cfg, &state, now);
            match action {
                PollAction::Continue => {}
                PollAction::Transition { .. } => {
                    kills += 1;
                    spawns += 1;
                }
                PollAction::Exit => {
                    kills += 1;
                    break;
                }
            }
        },
    }

    assert_eq!(spawns, 1);
    assert_eq!(kills, 1);
    assert_eq!(polls, 0);
}

#[test]
fn single_shot_mode_exits_even_on_a_flipped_reading() {
    let mut cfg = default_config();
    cfg.check_interval = 0;
    let (state, _) = plan_start(&cfg, false);
    // Stopping takes precedence over a transition: with check_interval == 0
    // a poll exits from any state; it never kills and respawns.
    let (_, action) = poll_step(&cfg, &state, true);
    assert!(matches!(action, PollAction::Exit));
    let (_, action_unchanged) = poll_step(&cfg, &state, false);
    assert!(matches!(action_unchanged, PollAction::Exit));
}

#[test]
fn polling_mode_continues_after_spawn() {
    let cfg = default_config();
    assert!(matches!(spawn_follow_up(&cfg), PollAction::Continue));
}

#[test]
fn unchanged_polls_never_kill_or_respawn() {
    let cfg = default_config();
    let start = is_on_battery(&None, &probe("Discharging"));
    assert!(start);
    let (mut state, command) = plan_start(&cfg, start);
    assert_eq!(command, build_command(&cfg.battery));

    for _ in 0..10 {
        let now = is_on_battery(&None, &probe("Discharging\n"));
        let (next, action) = poll_step(&cfg, &state, now);
        assert!(matches!(action, PollAction::Continue));
        assert_eq!(next.on_battery, state.on_battery);
        state = next;
    }
}

#[test]
fn battery_to_ac_transition_selects_ac_profile() {
    let cfg = default_config();
    let (state, _) = plan_start(&cfg, true);
    let now = is_on_battery(&probe(" 1 "), &probe("Discharging"));
    assert!(!now);
    let (next, action) = poll_step(&cfg, &state, now);
    assert!(!next.on_battery);
    match action {
        PollAction::Transition { notify, on_battery, command } => {
            assert!(notify);
            assert!(!on_battery);
            assert_eq!(command, build_command(&cfg.ac));
        }
        _ => panic!("a flipped power state must kill and respawn"),
    }
}

#[test]
fn transition_carries_notification_toggle() {
    let mut cfg = default_config();
    cfg.enable_notifications = false;
    let (state, _) = plan_start(&cfg, false);
    let (_, action) = poll_step(&cfg, &state, true);
    match action {
        PollAction::Transition { notify, .. } => assert!(!notify),
        _ => panic!("a flipped power state must kill and respawn"),
    }
}

#[test]
fn mode_messages() {
    assert_eq!(startup_message(true), "Running in Battery mode");
    assert_eq!(startup_message(false), "Running in AC power mode");
    assert_eq!(switching_message(true), "Switching to Battery mode");
    assert_eq!(switching_message(false), "Switching to AC power mode");
    assert_eq!(transition_message(true), "Switched to Battery Power Mode");
    assert_eq!(transition_message(false), "Switched to AC Power Mode");
}
