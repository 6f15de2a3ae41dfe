//! The daemon's configuration: two power profiles of three idle levels each,
//! plus the poll interval, the notification toggle and the two probe paths.

use vstd::prelude::*;
use vstd::string::StringExecFns;

verus! {

/// One idle tier: after `timeout` seconds of inactivity run `command`.
/// A `timeout` of zero disables the tier, and the idle command omits it.
pub struct Level {
    pub timeout: u64,
    pub command: String,
}

/// A power profile: exactly three levels, in ascending-threshold order.
pub struct Levels {
    pub level1: Level,
    pub level2: Level,
    pub level3: Level,
}

/// The whole configuration, immutable once loaded.
/// `check_interval` is the poll period in seconds; zero means
/// "probe once, run once, then exit".
pub struct Config {
    pub ac: Levels,
    pub battery: Levels,
    pub check_interval: u64,
    pub enable_notifications: bool,
    pub ac_path: String,
    pub battery_path: String,
}

/// The profile that a power state selects: the battery profile when on
/// battery, the AC profile otherwise.
pub open spec fn profile_for(cfg: Config, on_battery: bool) -> Levels {
    if on_battery {
        cfg.battery
    } else {
        cfg.ac
    }
}

/// Profile selector: maps the current power state to one of the two
/// configured level sets.
pub fn select<'a>(cfg: &'a Config, on_battery: bool) -> (p: &'a Levels)
    ensures
        *p == profile_for(*cfg, on_battery),
{
    if on_battery {
        &cfg.battery
    } else {
        &cfg.ac
    }
}

/// The built-in default configuration, field by field. The generated default
/// document (`default_config_text`) parses to exactly these values.
pub fn default_config() -> (c: Config)
    ensures
        c.check_interval == 5,
        c.enable_notifications == true,
        c.ac_path@ == "/sys/class/power_supply/AC0/online"@,
        c.battery_path@ == "/sys/class/power_supply/BAT0/status"@,
        c.ac.level1.timeout == 600,
        c.ac.level1.command@ == "notify-send -i /path/to/nonexistent/icon \"Hypraway\" -t 2100 \"You have been away\""@,
        c.ac.level2.timeout == 1200,
        c.ac.level2.command@ == "hyprlock"@,
        c.ac.level3.timeout == 0,
        c.ac.level3.command@ == "systemctl hibernate"@,
        c.battery.level1.timeout == 300,
        c.battery.level1.command@ == "notify-send -i /path/to/nonexistent/icon \"Hypraway\" -t 2100 \"You have been away\""@,
        c.battery.level2.timeout == 600,
        c.battery.level2.command@ == "hyprlock"@,
        c.battery.level3.timeout == 900,
        c.battery.level3.command@ == "systemctl hibernate"@,
{
    Config {
        ac: Levels {
            level1: Level {
                timeout: 600,
                command: String::from_str("notify-send -i /path/to/nonexistent/icon \"Hypraway\" -t 2100 \"You have been away\""),
            },
            level2: Level { timeout: 1200, command: String::from_str("hyprlock") },
            level3: Level { timeout: 0, command: String::from_str("systemctl hibernate") },
        },
        battery: Levels {
            level1: Level {
                timeout: 300,
                command: String::from_str("notify-send -i /path/to/nonexistent/icon \"Hypraway\" -t 2100 \"You have been away\""),
            },
            level2: Level { timeout: 600, command: String::from_str("hyprlock") },
            level3: Level { timeout: 900, command: String::from_str("systemctl hibernate") },
        },
        check_interval: 5,
        enable_notifications: true,
        ac_path: String::from_str("/sys/class/power_supply/AC0/online"),
        battery_path: String::from_str("/sys/class/power_supply/BAT0/status"),
    }
}

/// The default configuration document, as a value: exactly the text that
/// `default_config_text` returns and the config loader writes out.
pub open spec fn default_document() -> Seq<char> {
    "# Hypraway v1.1 configuration file
check_interval: 5

# Enable notifications for power state changes
enable_notifications: true

# AC power mode
ac_path: \"/sys/class/power_supply/AC0/online\"
battery_path: \"/sys/class/power_supply/BAT0/status\"

ac:
  # Level 1: Notify user away
  level1:
    timeout: 600  # 10 minutes
    command: \"notify-send -i /path/to/nonexistent/icon \\\"Hypraway\\\" -t 2100 \\\"You have been away\\\"\"
  # Level 2: Lock screen
  level2:
    timeout: 1200  # 20 minutes
    command: \"hyprlock\"
  # Level 3: Suspend or Hibernate
  level3:
    timeout: 0  # disabled
    command: \"systemctl hibernate\"

# Battery mode
battery:
  # Level 1: Notify user away
  level1:
    timeout: 300  # 5 minutes
    command: \"notify-send -i /path/to/nonexistent/icon \\\"Hypraway\\\" -t 2100 \\\"You have been away\\\"\"
  # Level 2: Lock screen
  level2:
    timeout: 600  # 10 minutes
    command: \"hyprlock\"
  # Level 3: Suspend or Hibernate
  level3:
    timeout: 900  # 15 minutes
    command: \"systemctl hibernate\""@
}

/// The default configuration document, written out verbatim when no config
/// file exists. It parses to the values that `default_config` returns.
pub fn default_config_text() -> (r: &'static str)
    ensures
        r@ == default_document(),
{
    "# Hypraway v1.1 configuration file
check_interval: 5

# Enable notifications for power state changes
enable_notifications: true

# AC power mode
ac_path: \"/sys/class/power_supply/AC0/online\"
battery_path: \"/sys/class/power_supply/BAT0/status\"

ac:
  # Level 1: Notify user away
  level1:
    timeout: 600  # 10 minutes
    command: \"notify-send -i /path/to/nonexistent/icon \\\"Hypraway\\\" -t 2100 \\\"You have been away\\\"\"
  # Level 2: Lock screen
  level2:
    timeout: 1200  # 20 minutes
    command: \"hyprlock\"
  # Level 3: Suspend or Hibernate
  level3:
    timeout: 0  # disabled
    command: \"systemctl hibernate\"

# Battery mode
battery:
  # Level 1: Notify user away
  level1:
    timeout: 300  # 5 minutes
    command: \"notify-send -i /path/to/nonexistent/icon \\\"Hypraway\\\" -t 2100 \\\"You have been away\\\"\"
  # Level 2: Lock screen
  level2:
    timeout: 600  # 10 minutes
    command: \"hyprlock\"
  # Level 3: Suspend or Hibernate
  level3:
    timeout: 900  # 15 minutes
    command: \"systemctl hibernate\""
}

} // verus!
