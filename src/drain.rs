//! The shutdown sequence: stop accepting, cancel the watchers, then wait for
//! the connection handlers for a bounded time.
use vstd::prelude::*;
use crate::cancel::Trigger;

verus! {

/// How long the drain waits for handlers unless told otherwise, in
/// milliseconds.
pub const DEFAULT_DRAIN_DEADLINE_MS: u64 = 20_000;

/// Where the shutdown sequence stands.
#[derive(Debug, Clone, Copy, PartialEq, Eq, Structural)]
pub enum Stage {
    /// Accepting connections.
    Running,
    /// Shutdown was asked for; the accept loop has not yet ended.
    ShuttingDown,
    /// The accept loop has ended and the watchers are cancelled; waiting for
    /// the handlers.
    Draining,
    /// Done.
    Terminated,
}

/// One look at the drain.
#[derive(Debug, Clone, Copy, PartialEq, Eq, Structural)]
pub enum DrainStep {
    /// Handlers are still running and the deadline has not passed.
    Wait,
    /// Every handler has finished.
    Clean,
    /// The deadline passed first; the remaining handlers are abandoned.
    Forced,
}

/// The drain rule: finished handlers end it at once, else the deadline does.
pub open spec fn drain_spec(elapsed_ms: u64, deadline_ms: u64, remaining: usize) -> DrainStep {
    if remaining == 0 {
        DrainStep::Clean
    } else if elapsed_ms >= deadline_ms {
        DrainStep::Forced
    } else {
        DrainStep::Wait
    }
}

/// Sequences the shutdown of the server.
pub struct DrainController {
    stage: Stage,
    failed: bool,
    deadline_ms: u64,
}

impl DrainController {
    /// The stage reached.
    pub closed spec fn stage_spec(&self) -> Stage {
        self.stage
    }

    /// Whether the accept loop ended with a listener failure.
    pub closed spec fn failed_spec(&self) -> bool {
        self.failed
    }

    /// The drain deadline, in milliseconds.
    pub closed spec fn deadline_spec(&self) -> u64 {
        self.deadline_ms
    }

    /// A running server whose drain waits at most `deadline_ms` milliseconds.
    pub fn new(deadline_ms: u64) -> (r: DrainController)
        ensures
            r.stage_spec() == Stage::Running,
            !r.failed_spec(),
            r.deadline_spec() == deadline_ms,
    {
        DrainController { stage: Stage::Running, failed: false, deadline_ms }
    }

    /// The stage reached.
    pub fn stage(&self) -> (r: Stage)
        ensures
            r == self.stage_spec(),
    {
        self.stage
    }

    /// The drain deadline, in milliseconds.
    pub fn deadline_ms(&self) -> (r: u64)
        ensures
            r == self.deadline_spec(),
    {
        self.deadline_ms
    }

    /// An interrupt arrived or the idle watchdog fired: fires the trigger (a
    /// repeated firing does nothing) and leaves the running stage.
    pub fn on_stop_request(&mut self, trigger: &mut Trigger)
        ensures
            final(trigger).fired(),
            final(self).stage_spec() == (if old(self).stage_spec() == Stage::Running {
                Stage::ShuttingDown
            } else {
                old(self).stage_spec()
            }),
            final(self).failed_spec() == old(self).failed_spec(),
            final(self).deadline_spec() == old(self).deadline_spec(),
    {
        trigger.fire();
        if self.stage == Stage::Running {
            self.stage = Stage::ShuttingDown;
        }
    }

    /// The accept loop has ended, with a listener failure or not, and the
    /// watchers have been cancelled. Fires the trigger again, so that every
    /// handler learns of the shutdown whatever ended the loop, and starts
    /// draining.
    pub fn on_accept_ended(&mut self, failed: bool, trigger: &mut Trigger)
        ensures
            final(trigger).fired(),
            final(self).stage_spec() == (if old(self).stage_spec() == Stage::Terminated {
                Stage::Terminated
            } else {
                Stage::Draining
            }),
            final(self).failed_spec() == (old(self).failed_spec() || failed),
            final(self).deadline_spec() == old(self).deadline_spec(),
    {
        trigger.fire();
        self.failed = self.failed || failed;
        if self.stage != Stage::Terminated {
            self.stage = Stage::Draining;
        }
    }

    /// One look at the drain: `elapsed_ms` since draining began, with
    /// `remaining` handlers still running. Terminates once they are all done
    /// or the deadline has passed.
    pub fn on_drain_progress(&mut self, elapsed_ms: u64, remaining: usize) -> (step: DrainStep)
        ensures
            old(self).stage_spec() == Stage::Draining ==> step == drain_spec(
                elapsed_ms,
                old(self).deadline_spec(),
                remaining,
            ),
            old(self).stage_spec() != Stage::Draining ==> step == DrainStep::Wait,
            final(self).stage_spec() == (if step == DrainStep::Wait {
                old(self).stage_spec()
            } else {
                Stage::Terminated
            }),
            final(self).failed_spec() == old(self).failed_spec(),
            final(self).deadline_spec() == old(self).deadline_spec(),
    {
        if self.stage != Stage::Draining {
            return DrainStep::Wait;
        }
        let step = if remaining == 0 {
            DrainStep::Clean
        } else if elapsed_ms >= self.deadline_ms {
            DrainStep::Forced
        } else {
            DrainStep::Wait
        };
        if step != DrainStep::Wait {
            self.stage = Stage::Terminated;
        }
        step
    }

    /// Whether the process exits successfully: it does unless the accept loop
    /// ended with a listener failure, however the drain ended.
    pub fn exit_success(&self) -> (r: bool)
        ensures
            r == !self.failed_spec(),
    {
        !self.failed
    }
}

/// Bounded drain. While draining, the controller terminates as soon as the
/// deadline has passed, however many handlers are still running, and at once
/// when the last handler finishes, whatever the time; only handlers still
/// running before the deadline make it wait.
pub proof fn lemma_drain_is_bounded(elapsed_ms: u64, deadline_ms: u64, remaining: usize)
    ensures
        elapsed_ms >= deadline_ms ==> drain_spec(elapsed_ms, deadline_ms, remaining)
            != DrainStep::Wait,
        remaining == 0 ==> drain_spec(elapsed_ms, deadline_ms, remaining) == DrainStep::Clean,
        drain_spec(elapsed_ms, deadline_ms, remaining) == DrainStep::Wait <==> (remaining > 0
            && elapsed_ms < deadline_ms),
{
}

} // verus!
