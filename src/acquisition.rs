//! Startup: waiting until both shared-memory sources can be opened.
//!
//! The caller runs the loop: it asks for the next step, sleeps the poll
//! interval, tries to open the named source, and records whether that worked.
//! A source that opened stays open; one that did not is tried again, forever.

use vstd::prelude::*;

verus! {

/// One of the two records that the simulator publishes.
#[derive(Clone, Copy, Debug, PartialEq, Eq, Structural)]
pub enum Source {
    Flight,
    Session,
}

/// What the startup loop does next.
#[derive(Clone, Copy, Debug, PartialEq, Eq, Structural)]
pub enum AcquireStep {
    /// Sleep the poll interval, then try to open this source.
    Open(Source),
    /// Both sources are open: start the tick loop.
    Run,
}

/// Which sources have been opened so far.
#[derive(Clone, Copy, Debug, PartialEq, Eq, Structural)]
pub struct Acquisition {
    pub flight_ready: bool,
    pub session_ready: bool,
}

impl Acquisition {
    /// Both sources are open.
    pub open spec fn ready(self) -> bool {
        self.flight_ready && self.session_ready
    }

    /// The flight source is acquired first, then the session source.
    pub open spec fn step_spec(self) -> AcquireStep {
        if !self.flight_ready {
            AcquireStep::Open(Source::Flight)
        } else if !self.session_ready {
            AcquireStep::Open(Source::Session)
        } else {
            AcquireStep::Run
        }
    }

    /// The state after the attempt that `step_spec` asked for, which
    /// succeeded when `opened` holds.
    pub open spec fn after_attempt(self, opened: bool) -> Acquisition {
        match self.step_spec() {
            AcquireStep::Open(Source::Flight) => Acquisition { flight_ready: opened, ..self },
            AcquireStep::Open(Source::Session) => Acquisition { session_ready: opened, ..self },
            AcquireStep::Run => self,
        }
    }

    /// The state after `n` attempts that all failed.
    pub open spec fn after_failures(self, n: nat) -> Acquisition
        decreases n,
    {
        if n == 0 {
            self
        } else {
            self.after_attempt(false).after_failures((n - 1) as nat)
        }
    }

    /// Nothing is open yet.
    pub fn new() -> (r: Acquisition)
        ensures
            !r.flight_ready,
            !r.session_ready,
    {
        Acquisition { flight_ready: false, session_ready: false }
    }

    /// The next step of the startup loop.
    pub fn next_step(&self) -> (r: AcquireStep)
        ensures
            r == self.step_spec(),
            (r == AcquireStep::Run) == self.ready(),
    {
        if !self.flight_ready {
            AcquireStep::Open(Source::Flight)
        } else if !self.session_ready {
            AcquireStep::Open(Source::Session)
        } else {
            AcquireStep::Run
        }
    }

    /// Records the outcome of the attempt that `next_step` asked for.
    pub fn record(&mut self, opened: bool)
        ensures
            *final(self) == old(self).after_attempt(opened),
    {
        if !self.flight_ready {
            self.flight_ready = opened;
        } else if !self.session_ready {
            self.session_ready = opened;
        }
    }
}

/// A source that never appears is retried forever: however many attempts
/// fail, the state does not change, and the loop never reaches the tick loop.
pub proof fn lemma_failures_keep_waiting(a: Acquisition, n: nat)
    requires
        !a.ready(),
    ensures
        a.after_failures(n) == a,
        a.after_failures(n).step_spec() != AcquireStep::Run,
    decreases n,
{
    if n > 0 {
        assert(a.after_attempt(false) == a);
        lemma_failures_keep_waiting(a, (n - 1) as nat);
    }
}

/// The tick loop is reached only once both sources are open, and an opened
/// source stays open whatever the next attempt reports.
pub proof fn lemma_run_only_when_both_ready(a: Acquisition, opened: bool)
    ensures
        (a.step_spec() == AcquireStep::Run) == a.ready(),
        a.flight_ready ==> a.after_attempt(opened).flight_ready,
        a.session_ready ==> a.after_attempt(opened).session_ready,
{
}

} // verus!
