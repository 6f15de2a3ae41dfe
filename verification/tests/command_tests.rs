use hypraway::command::{build_command, u64_to_dec};
use hypraway::config::{default_config, Level, Levels};

fn levels(t1: u64, c1: &str, t2: u64, c2: &str, t3: u64, c3: &str) -> Levels {
    Levels {
        level1: Level { timeout: t1, command: String::from(c1) },
        level2: Level { timeout: t2, command: String::from(c2) },
        level3: Level { timeout: t3, command: String::from(c3) },
    }
}

#[test]
fn all_levels_enabled_in_order() {
    let p = levels(300, "notify-send away", 600, "hyprlock", 900, "systemctl hibernate");
    assert_eq!(
        build_command(&p),
        "swayidle timeout 300 'notify-send away' timeout 600 'hyprlock' timeout 900 'systemctl hibernate'"
    );
}

#[test]
fn zero_timeout_level_is_omitted() {
    let p = levels(600, "first", 0, "skipped", 900, "third");
    assert_eq!(build_command(&p), "swayidle timeout 600 'first' timeout 900 'third'");
}

#[test]
fn only_middle_level_enabled() {
    let p = levels(0, "a", 1200, "hyprlock", 0, "c");
    assert_eq!(build_command(&p), "swayidle timeout 1200 'hyprlock'");
}

#[test]
fn all_levels_disabled_gives_bare_invocation() {
    let p = levels(0, "a", 0, "b", 0, "c");
    assert_eq!(build_command(&p), "swayidle");
}

#[test]
fn default_ac_profile_command() {
    let cfg = default_config();
    assert_eq!(
        build_command(&cfg.ac),
        "swayidle timeout 600 'notify-send -i /path/to/nonexistent/icon \"Hypraway\" -t 2100 \"You have been away\"' timeout 1200 'hyprlock'"
    );
}

#[test]
fn default_battery_profile_command() {
    let cfg = default_config();
    assert_eq!(
        build_command(&cfg.battery),
        "swayidle timeout 300 'notify-send -i /path/to/nonexistent/icon \"Hypraway\" -t 2100 \"You have been away\"' timeout 600 'hyprlock' timeout 900 'systemctl hibernate'"
    );
}

#[test]
fn decimal_formatting() {
    assert_eq!(u64_to_dec(0), "0");
    assert_eq!(u64_to_dec(7), "7");
    assert_eq!(u64_to_dec(10), "10");
    assert_eq!(u64_to_dec(905), "905");
    assert_eq!(u64_to_dec(1200), "1200");
    assert_eq!(u64_to_dec(u64::MAX), "18446744073709551615");
}
