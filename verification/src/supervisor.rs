//! The supervisor's decision logic. The daemon's loop — spawn the idle
//! command, sleep, re-probe, and on a power transition kill and respawn —
//! lives outside this crate; the functions here decide, from the remembered
//! state and the fresh probe classification alone, which action the loop
//! takes next.

use vstd::prelude::*;
use crate::command::{build_command, command_line};
use crate::config::{Config, profile_for, select};

verus! {

/// What the supervisor remembers between polls: the power state the running
/// child was spawned for.
pub struct SupervisorState {
    pub on_battery: bool,
}

/// The loop's next move after a poll.
pub enum PollAction {
    /// The power state is unchanged: leave the child running and sleep again.
    Continue,
    /// The power state flipped: notify if asked to, kill the child, and
    /// respawn it with `command`.
    Transition { notify: bool, on_battery: bool, command: String },
    /// Single-shot mode (`check_interval == 0`): kill the child and exit
    /// successfully, from any state.
    Exit,
}

/// A poll is a transition exactly when its reading differs from the state the
/// running child was spawned for.
pub open spec fn is_transition(last_on_battery: bool, now_on_battery: bool) -> bool {
    now_on_battery != last_on_battery
}

/// Start-up decision: remember the probed power state and build the idle
/// command for the profile it selects.
pub fn plan_start(cfg: &Config, on_battery: bool) -> (r: (SupervisorState, String))
    ensures
        r.0.on_battery == on_battery,
        r.1@ == command_line(profile_for(*cfg, on_battery)),
{
    let levels = select(cfg, on_battery);
    let command = build_command(levels);
    (SupervisorState { on_battery }, command)
}

/// The move that follows every spawn, before any further poll: in single-shot
/// mode (`check_interval == 0`) the supervisor stops — kill the child and
/// exit, with no second poll; otherwise it continues into the polling loop.
pub fn spawn_follow_up(cfg: &Config) -> (r: PollAction)
    ensures
        cfg.check_interval == 0 ==> r == PollAction::Exit,
        cfg.check_interval > 0 ==> r == PollAction::Continue,
{
    if cfg.check_interval == 0 {
        PollAction::Exit
    } else {
        PollAction::Continue
    }
}

/// One poll of the supervisor loop. Stopping comes first: in single-shot mode
/// (`check_interval == 0`) the supervisor kills the child and exits from any
/// state. Otherwise a changed reading yields a transition — kill and respawn
/// with the newly selected profile's command, notifying only if notifications
/// are enabled — and an unchanged reading yields no kill and no respawn.
pub fn poll_step(cfg: &Config, state: &SupervisorState, on_battery_now: bool) -> (r: (
    SupervisorState,
    PollAction,
))
    ensures
        r.0.on_battery == on_battery_now,
        cfg.check_interval == 0 ==> r.1 == PollAction::Exit,
        (r.1 matches PollAction::Transition { .. }) == (cfg.check_interval > 0 && is_transition(
            state.on_battery,
            on_battery_now,
        )),
        cfg.check_interval > 0 && is_transition(state.on_battery, on_battery_now) ==> (
        r.1 matches PollAction::Transition {
            notify,
            on_battery,
            command,
        } && notify == cfg.enable_notifications && on_battery == on_battery_now && command@
            == command_line(profile_for(*cfg, on_battery_now))),
        cfg.check_interval > 0 && !is_transition(state.on_battery, on_battery_now) ==> r.1
            == PollAction::Continue,
{
    if cfg.check_interval == 0 {
        (SupervisorState { on_battery: on_battery_now }, PollAction::Exit)
    } else if on_battery_now != state.on_battery {
        let levels = select(cfg, on_battery_now);
        let command = build_command(levels);
        (
            SupervisorState { on_battery: on_battery_now },
            PollAction::Transition {
                notify: cfg.enable_notifications,
                on_battery: on_battery_now,
                command,
            },
        )
    } else {
        (SupervisorState { on_battery: on_battery_now }, PollAction::Continue)
    }
}

/// How many of a run of polls are transitions, starting from a child spawned
/// for `last_on_battery`; the state after each poll is that poll's reading,
/// exactly as `poll_step` leaves it.
pub open spec fn transitions_in(last_on_battery: bool, polls: Seq<bool>) -> nat
    decreases polls.len(),
{
    if polls.len() == 0 {
        0
    } else {
        (if is_transition(last_on_battery, polls[0]) {
            1nat
        } else {
            0nat
        }) + transitions_in(polls[0], polls.drop_first())
    }
}

/// Law: repeated polls with unchanged probe readings never kill and respawn
/// the child — a run of polls that all read the state the child was spawned
/// for holds no transition.
pub proof fn lemma_steady_polls_never_respawn(last_on_battery: bool, polls: Seq<bool>)
    requires
        forall|i: int| 0 <= i < polls.len() ==> polls[i] == last_on_battery,
    ensures
        transitions_in(last_on_battery, polls) == 0,
    decreases polls.len(),
{
    if polls.len() > 0 {
        let rest = polls.drop_first();
        assert(forall|i: int| 0 <= i < rest.len() ==> rest[i] == polls[i + 1]);
        lemma_steady_polls_never_respawn(polls[0], rest);
    }
}

/// The startup log line: names the mode the daemon begins in.
pub fn startup_message(on_battery: bool) -> (r: &'static str)
    ensures
        on_battery ==> r@ == "Running in Battery mode"@,
        !on_battery ==> r@ == "Running in AC power mode"@,
{
    if on_battery {
        "Running in Battery mode"
    } else {
        "Running in AC power mode"
    }
}

/// The transition log line: names the mode being switched to.
pub fn switching_message(on_battery: bool) -> (r: &'static str)
    ensures
        on_battery ==> r@ == "Switching to Battery mode"@,
        !on_battery ==> r@ == "Switching to AC power mode"@,
{
    if on_battery {
        "Switching to Battery mode"
    } else {
        "Switching to AC power mode"
    }
}

/// The desktop-notification text sent on a transition.
pub fn transition_message(on_battery: bool) -> (r: &'static str)
    ensures
        on_battery ==> r@ == "Switched to Battery Power Mode"@,
        !on_battery ==> r@ == "Switched to AC Power Mode"@,
{
    if on_battery {
        "Switched to Battery Power Mode"
    } else {
        "Switched to AC Power Mode"
    }
}

} // verus!
