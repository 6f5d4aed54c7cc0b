//! The periodic update checker, as a state machine.
//!
//! The checker owns the decisions of the update loop: when to poll, what to
//! report, when to download and install, and when to request a restart. It
//! performs no timer, network, installer or process operation itself. Each
//! transition hands the embedding shell one [`CheckerAction`]; the shell
//! performs it and feeds the outcome back as the next [`CheckerEvent`].
//!
//! Per poll: wait out the interval, acquire the updater handle, ask it for a
//! newer version, and if one exists download and install it, then restart.
//! Every failure (no updater, failed check, failed install) is logged and
//! non-fatal: the checker just waits out the next interval. The only terminal
//! state is a successful install, which ends the process by restart.

use vstd::prelude::*;
use vstd::string::StringExecFns;

verus! {

/// Seconds between setup and the first update check.
pub const INITIAL_DELAY_SECS: u64 = 10;

/// Seconds between one check outcome and the next check: six hours.
pub const CHECK_INTERVAL_SECS: u64 = 6 * 60 * 60;

/// Where the checker stands: what it asked the embedding shell to do last.
#[derive(Clone, Copy, Debug, PartialEq, Eq, Structural)]
pub enum CheckerState {
    /// Waiting out the one-time delay between setup and the first check.
    InitialDelay,
    /// Waiting out the fixed polling interval before the next check.
    WaitingInterval,
    /// Waiting for the shell to acquire the updater handle.
    AcquiringUpdater,
    /// Waiting for the updater's availability check.
    Checking,
    /// Waiting for the download and install of an available update.
    Installing,
    /// A restart was requested; the process is ending. Terminal.
    Restarting,
}

/// One operation the embedding shell performs on behalf of the checker.
#[derive(Clone, Copy, Debug, PartialEq, Eq, Structural)]
pub enum CheckerAction {
    /// Suspend the checker task for this many seconds, then report
    /// [`CheckerEvent::DelayElapsed`].
    Sleep(u64),
    /// Acquire the updater handle from the application context.
    AcquireUpdater,
    /// Ask the updater whether a newer version exists.
    Check,
    /// Download and install the available update.
    DownloadAndInstall,
    /// Terminate and relaunch the process.
    Restart,
}

/// The outcome of an action, reported back by the embedding shell.
#[derive(Clone, Debug)]
pub enum CheckerEvent {
    /// A requested suspension has run its full course.
    DelayElapsed,
    /// The updater handle was acquired.
    UpdaterAcquired,
    /// The updater handle could not be acquired; `message` describes why.
    UpdaterUnavailable { message: String },
    /// A newer version exists: the running version and the candidate.
    UpdateAvailable { current: String, candidate: String },
    /// The check completed: no newer version exists.
    NoUpdate,
    /// The availability check failed; `message` describes why.
    CheckFailed { message: String },
    /// The update was downloaded and installed.
    InstallSucceeded,
    /// The download or install failed; `message` describes why.
    InstallFailed { message: String },
}

/// One line of console output: an error report or an informational note.
#[derive(Clone, Debug)]
pub struct LogLine {
    /// True for the error stream, false for the informational stream.
    pub error: bool,
    /// The text of the line.
    pub text: String,
}

/// What one transition tells the embedding shell: the state to hold, the
/// action to perform, and an optional line to print first.
#[derive(Clone, Debug)]
pub struct Transition {
    /// The checker's next state.
    pub state: CheckerState,
    /// The next action the shell must perform.
    pub action: CheckerAction,
    /// A line to print before performing the action, if any.
    pub log: Option<LogLine>,
}

/// Which events may answer which state: each state awaits the outcomes of
/// exactly the action it last issued, and the terminal state awaits nothing.
pub open spec fn event_permitted(s: CheckerState, e: CheckerEvent) -> bool {
    match s {
        CheckerState::InitialDelay => e is DelayElapsed,
        CheckerState::WaitingInterval => e is DelayElapsed,
        CheckerState::AcquiringUpdater => e is UpdaterAcquired || e is UpdaterUnavailable,
        CheckerState::Checking => e is UpdateAvailable || e is NoUpdate || e is CheckFailed,
        CheckerState::Installing => e is InstallSucceeded || e is InstallFailed,
        CheckerState::Restarting => false,
    }
}

/// The state after `e` answers `s` (meaningful only for permitted pairs).
pub open spec fn next_state(s: CheckerState, e: CheckerEvent) -> CheckerState {
    match (s, e) {
        (CheckerState::InitialDelay, CheckerEvent::DelayElapsed) => CheckerState::AcquiringUpdater,
        (CheckerState::WaitingInterval, CheckerEvent::DelayElapsed) => CheckerState::AcquiringUpdater,
        (CheckerState::AcquiringUpdater, CheckerEvent::UpdaterAcquired) => CheckerState::Checking,
        (CheckerState::AcquiringUpdater, CheckerEvent::UpdaterUnavailable { .. }) => CheckerState::WaitingInterval,
        (CheckerState::Checking, CheckerEvent::UpdateAvailable { .. }) => CheckerState::Installing,
        (CheckerState::Checking, CheckerEvent::NoUpdate) => CheckerState::WaitingInterval,
        (CheckerState::Checking, CheckerEvent::CheckFailed { .. }) => CheckerState::WaitingInterval,
        (CheckerState::Installing, CheckerEvent::InstallSucceeded) => CheckerState::Restarting,
        (CheckerState::Installing, CheckerEvent::InstallFailed { .. }) => CheckerState::WaitingInterval,
        _ => s,
    }
}

/// The action issued after `e` answers `s` (meaningful only for permitted
/// pairs): entering `WaitingInterval` sleeps the full interval, entering
/// `AcquiringUpdater` acquires, `Checking` checks, `Installing` installs,
/// and `Restarting` restarts.
pub open spec fn next_action(s: CheckerState, e: CheckerEvent) -> CheckerAction {
    match next_state(s, e) {
        CheckerState::InitialDelay => CheckerAction::Sleep(INITIAL_DELAY_SECS),
        CheckerState::WaitingInterval => CheckerAction::Sleep(CHECK_INTERVAL_SECS),
        CheckerState::AcquiringUpdater => CheckerAction::AcquireUpdater,
        CheckerState::Checking => CheckerAction::Check,
        CheckerState::Installing => CheckerAction::DownloadAndInstall,
        CheckerState::Restarting => CheckerAction::Restart,
    }
}

/// The console line each event earns: availability, absence, success and the
/// three failure modes are reported; mere delay expiry and a successful
/// handle acquisition are silent. The flag is true for the error stream.
pub open spec fn log_of(e: CheckerEvent) -> Option<(bool, Seq<char>)> {
    match e {
        CheckerEvent::DelayElapsed => None,
        CheckerEvent::UpdaterAcquired => None,
        CheckerEvent::UpdaterUnavailable { message } => Some(
            (true, "Failed to get updater: "@ + message@),
        ),
        CheckerEvent::UpdateAvailable { current, candidate } => Some(
            (false, "Update available: "@ + current@ + " -> "@ + candidate@),
        ),
        CheckerEvent::NoUpdate => Some((false, "No update available"@)),
        CheckerEvent::CheckFailed { message } => Some(
            (true, "Failed to check for updates: "@ + message@),
        ),
        CheckerEvent::InstallSucceeded => Some(
            (false, "Update installed successfully, restarting..."@),
        ),
        CheckerEvent::InstallFailed { message } => Some(
            (true, "Failed to install update: "@ + message@),
        ),
    }
}

/// Renders the console line that `event` earns, if any.
pub fn event_log(event: &CheckerEvent) -> (l: Option<LogLine>)
    ensures
        match log_of(*event) {
            None => l is None,
            Some(p) => l matches Some(line) && line.error == p.0 && line.text@ == p.1,
        },
{
    match event {
        CheckerEvent::DelayElapsed => None,
        CheckerEvent::UpdaterAcquired => None,
        CheckerEvent::UpdaterUnavailable { message } => {
            let mut text = "Failed to get updater: ".to_owned();
            text.append(message.as_str());
            Some(LogLine { error: true, text })
        },
        CheckerEvent::UpdateAvailable { current, candidate } => {
            let mut text = "Update available: ".to_owned();
            text.append(current.as_str());
            text.append(" -> ");
            text.append(candidate.as_str());
            Some(LogLine { error: false, text })
        },
        CheckerEvent::NoUpdate => Some(
            LogLine { error: false, text: "No update available".to_owned() },
        ),
        CheckerEvent::CheckFailed { message } => {
            let mut text = "Failed to check for updates: ".to_owned();
            text.append(message.as_str());
            Some(LogLine { error: true, text })
        },
        CheckerEvent::InstallSucceeded => Some(
            LogLine { error: false, text: "Update installed successfully, restarting...".to_owned() },
        ),
        CheckerEvent::InstallFailed { message } => {
            let mut text = "Failed to install update: ".to_owned();
            text.append(message.as_str());
            Some(LogLine { error: true, text })
        },
    }
}

/// The checker's first transition: hold the initial delay, print nothing,
/// and sleep the one-time startup delay.
pub fn initial() -> (t: Transition)
    ensures
        t.state == CheckerState::InitialDelay,
        t.action == CheckerAction::Sleep(INITIAL_DELAY_SECS),
        t.log is None,
{
    Transition {
        state: CheckerState::InitialDelay,
        action: CheckerAction::Sleep(INITIAL_DELAY_SECS),
        log: None,
    }
}

/// Whether `event` may answer `state`: the executable mirror of
/// [`event_permitted`], for the embedding shell to test before stepping.
pub fn permits(state: &CheckerState, event: &CheckerEvent) -> (b: bool)
    ensures
        b == event_permitted(*state, *event),
{
    match state {
        CheckerState::InitialDelay => match event {
            CheckerEvent::DelayElapsed => true,
            _ => false,
        },
        CheckerState::WaitingInterval => match event {
            CheckerEvent::DelayElapsed => true,
            _ => false,
        },
        CheckerState::AcquiringUpdater => match event {
            CheckerEvent::UpdaterAcquired => true,
            CheckerEvent::UpdaterUnavailable { .. } => true,
            _ => false,
        },
        CheckerState::Checking => match event {
            CheckerEvent::UpdateAvailable { .. } => true,
            CheckerEvent::NoUpdate => true,
            CheckerEvent::CheckFailed { .. } => true,
            _ => false,
        },
        CheckerState::Installing => match event {
            CheckerEvent::InstallSucceeded => true,
            CheckerEvent::InstallFailed { .. } => true,
            _ => false,
        },
        CheckerState::Restarting => false,
    }
}

/// Advances the checker: `event` answers `state`, and the result carries the
/// next state, the next action for the shell, and the line to print first.
pub fn step(state: CheckerState, event: CheckerEvent) -> (t: Transition)
    requires
        event_permitted(state, event),
    ensures
        t.state == next_state(state, event),
        t.action == next_action(state, event),
        match log_of(event) {
            None => t.log is None,
            Some(p) => t.log matches Some(line) && line.error == p.0 && line.text@ == p.1,
        },
{
    let log = event_log(&event);
    match state {
        CheckerState::InitialDelay => match event {
            CheckerEvent::DelayElapsed => Transition {
                state: CheckerState::AcquiringUpdater,
                action: CheckerAction::AcquireUpdater,
                log,
            },
            _ => unreached(),
        },
        CheckerState::WaitingInterval => match event {
            CheckerEvent::DelayElapsed => Transition {
                state: CheckerState::AcquiringUpdater,
                action: CheckerAction::AcquireUpdater,
                log,
            },
            _ => unreached(),
        },
        CheckerState::AcquiringUpdater => match event {
            CheckerEvent::UpdaterAcquired => Transition {
                state: CheckerState::Checking,
                action: CheckerAction::Check,
                log,
            },
            CheckerEvent::UpdaterUnavailable { .. } => Transition {
                state: CheckerState::WaitingInterval,
                action: CheckerAction::Sleep(CHECK_INTERVAL_SECS),
                log,
            },
            _ => unreached(),
        },
        CheckerState::Checking => match event {
            CheckerEvent::UpdateAvailable { .. } => Transition {
                state: CheckerState::Installing,
                action: CheckerAction::DownloadAndInstall,
                log,
            },
            CheckerEvent::NoUpdate => Transition {
                state: CheckerState::WaitingInterval,
                action: CheckerAction::Sleep(CHECK_INTERVAL_SECS),
                log,
            },
            CheckerEvent::CheckFailed { .. } => Transition {
                state: CheckerState::WaitingInterval,
                action: CheckerAction::Sleep(CHECK_INTERVAL_SECS),
                log,
            },
            _ => unreached(),
        },
        CheckerState::Installing => match event {
            CheckerEvent::InstallSucceeded => Transition {
                state: CheckerState::Restarting,
                action: CheckerAction::Restart,
                log,
            },
            CheckerEvent::InstallFailed { .. } => Transition {
                state: CheckerState::WaitingInterval,
                action: CheckerAction::Sleep(CHECK_INTERVAL_SECS),
                log,
            },
            _ => unreached(),
        },
        CheckerState::Restarting => unreached(),
    }
}

/// Law: a "no update available" outcome triggers no download, no install and
/// no restart; the checker just resumes waiting out the full polling interval.
pub proof fn lemma_no_update_resumes_waiting(s: CheckerState, e: CheckerEvent)
    requires
        s is Checking,
        e is NoUpdate,
    ensures
        next_state(s, e) is WaitingInterval,
        next_action(s, e) == CheckerAction::Sleep(CHECK_INTERVAL_SECS),
{
}

/// Law: a failed availability check is reported on the error stream, triggers
/// no install and no restart, and the checker resumes waiting out the full
/// polling interval; there is no early retry.
pub proof fn lemma_check_error_resumes_waiting(s: CheckerState, e: CheckerEvent)
    requires
        s is Checking,
        e is CheckFailed,
    ensures
        next_state(s, e) is WaitingInterval,
        next_action(s, e) == CheckerAction::Sleep(CHECK_INTERVAL_SECS),
        log_of(e) matches Some(p) && p.0 == true,
{
}

/// Law: an available update is downloaded and installed, and a successful
/// install requests a restart; the restarting state answers no further event,
/// so the request is issued exactly once.
pub proof fn lemma_install_success_restarts(
    s: CheckerState,
    avail: CheckerEvent,
    done: CheckerEvent,
)
    requires
        s is Checking,
        avail is UpdateAvailable,
        done is InstallSucceeded,
    ensures
        next_state(s, avail) is Installing,
        next_action(s, avail) == CheckerAction::DownloadAndInstall,
        next_state(next_state(s, avail), done) is Restarting,
        next_action(next_state(s, avail), done) == CheckerAction::Restart,
        forall|e: CheckerEvent| !event_permitted(next_state(next_state(s, avail), done), e),
{
}

/// Law: a failed install is reported on the error stream, no restart is
/// issued, and the checker resumes waiting out the full polling interval.
pub proof fn lemma_install_failure_resumes_waiting(s: CheckerState, e: CheckerEvent)
    requires
        s is Installing,
        e is InstallFailed,
    ensures
        next_state(s, e) is WaitingInterval,
        next_action(s, e) == CheckerAction::Sleep(CHECK_INTERVAL_SECS),
        log_of(e) matches Some(p) && p.0 == true,
{
}

/// Whether the events of `events` may answer, in order, a checker started in
/// state `s`.
pub open spec fn trace_permitted(s: CheckerState, events: Seq<CheckerEvent>) -> bool
    decreases events.len(),
{
    events.len() == 0 || (event_permitted(s, events[0]) && trace_permitted(
        next_state(s, events[0]),
        events.skip(1),
    ))
}

/// The actions a checker started in state `s` issues along `events`, in order.
pub open spec fn trace_actions(s: CheckerState, events: Seq<CheckerEvent>) -> Seq<CheckerAction>
    decreases events.len(),
{
    if events.len() == 0 {
        Seq::empty()
    } else {
        seq![next_action(s, events[0])] + trace_actions(next_state(s, events[0]), events.skip(1))
    }
}

/// Law: along any permitted run of the checker, a restart, if issued at all,
/// is the last action issued; in particular at most one restart is ever
/// requested, whatever the run.
pub proof fn lemma_restart_is_final(s: CheckerState, events: Seq<CheckerEvent>)
    requires
        trace_permitted(s, events),
    ensures
        trace_actions(s, events).len() == events.len(),
        forall|i: int|
            0 <= i < events.len() && (#[trigger] trace_actions(s, events)[i]) is Restart ==> i
                == events.len() - 1,
    decreases events.len(),
{
    if events.len() > 0 {
        let e = events[0];
        let s2 = next_state(s, e);
        let rest = events.skip(1);
        lemma_restart_is_final(s2, rest);
        let acts = trace_actions(s, events);
        let tail = trace_actions(s2, rest);
        if next_action(s, e) is Restart {
            assert(s2 is Restarting);
            if rest.len() > 0 {
                assert(event_permitted(s2, rest[0]));
                assert(false);
            }
        }
        assert forall|i: int|
            0 <= i < events.len() && (#[trigger] acts[i]) is Restart implies i == events.len()
            - 1 by {
            if i > 0 {
                assert(acts[i] == tail[i - 1]);
            }
        }
    }
}

} // verus!
