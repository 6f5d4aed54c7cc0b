//! Startup sequencing: the main window is revealed, and the splash window
//! dismissed, only after a fixed delay has masked initialization latency.
//!
//! The sequencer does not touch windows itself. It emits a plan: a fixed
//! sequence of actions that the embedding shell executes in order, exactly
//! once per application lifetime.

use vstd::prelude::*;

verus! {

/// Seconds the splash window stays up before the main window is revealed.
pub const STARTUP_DELAY_SECS: u64 = 3;

/// One operation the embedding shell performs on behalf of the startup
/// sequencer.
#[derive(Clone, Copy, Debug, PartialEq, Eq, Structural)]
pub enum StartupAction {
    /// Suspend the startup task for this many seconds.
    Sleep(u64),
    /// Make the main window visible.
    ShowMainWindow,
    /// Close and destroy the splash window.
    CloseSplashWindow,
}

/// The startup plan: wait out the full delay, then reveal the main window
/// and dismiss the splash window.
pub open spec fn startup_plan_seq() -> Seq<StartupAction> {
    seq![
        StartupAction::Sleep(STARTUP_DELAY_SECS),
        StartupAction::ShowMainWindow,
        StartupAction::CloseSplashWindow,
    ]
}

/// Returns the actions of the one-shot startup handoff, in execution order.
pub fn startup_plan() -> (p: Vec<StartupAction>)
    ensures
        p@ == startup_plan_seq(),
{
    let mut p: Vec<StartupAction> = Vec::new();
    p.push(StartupAction::Sleep(STARTUP_DELAY_SECS));
    p.push(StartupAction::ShowMainWindow);
    p.push(StartupAction::CloseSplashWindow);
    proof {
        assert(p@ =~= startup_plan_seq());
    }
    p
}

/// How many positions of `plan` hold exactly the action `a`.
pub open spec fn count_occurrences(plan: Seq<StartupAction>, a: StartupAction) -> nat
    decreases plan.len(),
{
    if plan.len() == 0 {
        0
    } else {
        count_occurrences(plan.drop_last(), a) + (if plan.last() == a {
            1nat
        } else {
            0nat
        })
    }
}

/// An action that changes what the user sees: the reveal of the main window
/// or the dismissal of the splash window.
pub open spec fn is_reveal_step(a: StartupAction) -> bool {
    a is ShowMainWindow || a is CloseSplashWindow
}

/// A suspension at least as long as the configured startup delay.
pub open spec fn is_full_delay(a: StartupAction) -> bool {
    a matches StartupAction::Sleep(d) && d >= STARTUP_DELAY_SECS
}

/// Every window reveal or splash dismissal in `plan` comes strictly after a
/// suspension of at least the configured delay.
pub open spec fn delay_precedes_reveal(plan: Seq<StartupAction>) -> bool {
    forall|i: int|
        0 <= i < plan.len() && is_reveal_step(#[trigger] plan[i]) ==> exists|j: int|
            0 <= j < i && is_full_delay(#[trigger] plan[j])
}

/// Law: the startup plan shows the main window exactly once and closes the
/// splash window exactly once, and neither happens before a suspension of at
/// least the configured delay has run.
pub proof fn lemma_startup_plan_sequenced(plan: Seq<StartupAction>)
    requires
        plan == startup_plan_seq(),
    ensures
        count_occurrences(plan, StartupAction::ShowMainWindow) == 1,
        count_occurrences(plan, StartupAction::CloseSplashWindow) == 1,
        delay_precedes_reveal(plan),
{
    let two = plan.drop_last();
    let one = two.drop_last();
    let zero = one.drop_last();
    assert(two =~= seq![
        StartupAction::Sleep(STARTUP_DELAY_SECS),
        StartupAction::ShowMainWindow,
    ]);
    assert(one =~= seq![StartupAction::Sleep(STARTUP_DELAY_SECS)]);
    assert(zero =~= Seq::<StartupAction>::empty());
    assert(count_occurrences(zero, StartupAction::ShowMainWindow) == 0);
    assert(count_occurrences(one, StartupAction::ShowMainWindow) == 0);
    assert(count_occurrences(two, StartupAction::ShowMainWindow) == 1);
    assert(count_occurrences(plan, StartupAction::ShowMainWindow) == 1);
    assert(count_occurrences(zero, StartupAction::CloseSplashWindow) == 0);
    assert(count_occurrences(one, StartupAction::CloseSplashWindow) == 0);
    assert(count_occurrences(two, StartupAction::CloseSplashWindow) == 0);
    assert(count_occurrences(plan, StartupAction::CloseSplashWindow) == 1);
    assert forall|i: int| 0 <= i < plan.len() && is_reveal_step(#[trigger] plan[i]) implies exists|
        j: int,
    | 0 <= j < i && is_full_delay(#[trigger] plan[j]) by {
        assert(is_full_delay(plan[0]));
        assert(!is_reveal_step(plan[0]));
    }
}

} // verus!
