//! The flag that lets the polling loop be launched once.

use vstd::prelude::*;

verus! {

/// What one readiness signal does to the flag: the flag is set whatever it
/// was, and the loop is to be launched when it was not set before.
pub open spec fn signal(started: bool) -> (bool, bool) {
    (true, !started)
}

/// The number of launches that `signals` readiness signals in a row cause,
/// when the flag is `started` before the first of them.
pub open spec fn launches(started: bool, signals: nat) -> nat
    decreases signals,
{
    if signals == 0 {
        0
    } else {
        let (after, launch) = signal(started);
        (if launch { 1nat } else { 0nat }) + launches(after, (signals - 1) as nat)
    }
}

/// `RunGuard` records whether the polling loop has been launched. It is never
/// reset. A caller that holds it exclusively checks and sets it in one call.
#[derive(Debug)]
pub struct RunGuard {
    started: bool,
}

impl RunGuard {
    /// Whether the loop has been launched.
    pub closed spec fn started(&self) -> bool {
        self.started
    }

    /// A guard under which nothing has been launched.
    pub fn new() -> (guard: RunGuard)
        ensures
            !guard.started(),
    {
        RunGuard { started: false }
    }

    /// Whether the loop has been launched.
    pub fn is_started(&self) -> (started: bool)
        ensures
            started == self.started(),
    {
        self.started
    }

    /// Takes one readiness signal. Answers `true` when the caller is to launch
    /// the loop, which is the case for the first signal only.
    pub fn try_start(&mut self) -> (launch: bool)
        ensures
            (final(self).started(), launch) == signal(old(self).started()),
    {
        let launch = !self.started;
        self.started = true;
        launch
    }
}

/// Once set, the flag stays set and no further signal launches anything.
pub proof fn lemma_started_launches_nothing(signals: nat)
    ensures
        launches(true, signals) == 0,
    decreases signals,
{
    if signals > 0 {
        lemma_started_launches_nothing((signals - 1) as nat);
    }
}

/// However many readiness signals arrive under a fresh guard, the loop is
/// launched exactly once, at the first of them.
pub proof fn lemma_launched_once(signals: nat)
    requires
        signals >= 1,
    ensures
        launches(false, signals) == 1,
{
    lemma_started_launches_nothing((signals - 1) as nat);
}

} // verus!
