//! The decisions of running the manager until the process is interrupted: on
//! a shutdown signal, cancel the manager, give the tasks a grace period to
//! finish, and abort them if it runs out.
use vstd::prelude::*;

verus! {

/// How long, in seconds, the tasks get to finish after a shutdown signal.
pub const SHUTDOWN_GRACE_SECS: u64 = 20;

/// Where the shutdown stands.
#[derive(Debug, Clone, Copy, PartialEq, Eq, Structural)]
pub enum ShutdownPhase {
    /// The manager runs; waiting for it to stop or for a signal.
    Running,
    /// The manager was cancelled; waiting for it within the grace period.
    Draining,
    /// The grace period ran out; waiting for the aborted manager to end.
    Aborting,
    /// Nothing is left to wait for.
    Finished,
}

/// What the runner reports.
#[derive(Debug, Clone, Copy, PartialEq, Eq, Structural)]
pub enum ShutdownEvent {
    /// The manager ended without having been cancelled.
    ManagerStopped,
    /// An interrupt or terminate signal arrived.
    SignalReceived,
    /// The cancelled manager ended within the grace period.
    DrainCompleted,
    /// The grace period ran out before the manager ended.
    GraceExpired,
    /// The aborted manager has ended.
    AbortCompleted,
}

/// What the runner is to do next.
#[derive(Debug, Clone, Copy, PartialEq, Eq, Structural)]
pub enum ShutdownAction {
    /// Report that the manager stopped unexpectedly.
    ReportUnexpectedStop,
    /// Cancel the manager and wait for it, for at most `grace_secs` seconds.
    CancelAndWait { grace_secs: u64 },
    /// Abort the manager and wait for it to end.
    AbortManager,
    /// Shutdown is complete.
    Complete,
    /// Nothing to do.
    Ignore,
}

/// One step of the shutdown: the next phase and the action to perform.
pub open spec fn shutdown_step(phase: ShutdownPhase, event: ShutdownEvent) -> (
    ShutdownPhase,
    ShutdownAction,
) {
    match (phase, event) {
        (ShutdownPhase::Running, ShutdownEvent::ManagerStopped) => (
            ShutdownPhase::Finished,
            ShutdownAction::ReportUnexpectedStop,
        ),
        (ShutdownPhase::Running, ShutdownEvent::SignalReceived) => (
            ShutdownPhase::Draining,
            ShutdownAction::CancelAndWait { grace_secs: SHUTDOWN_GRACE_SECS },
        ),
        (ShutdownPhase::Draining, ShutdownEvent::DrainCompleted) => (
            ShutdownPhase::Finished,
            ShutdownAction::Complete,
        ),
        (ShutdownPhase::Draining, ShutdownEvent::GraceExpired) => (
            ShutdownPhase::Aborting,
            ShutdownAction::AbortManager,
        ),
        (ShutdownPhase::Aborting, ShutdownEvent::AbortCompleted) => (
            ShutdownPhase::Finished,
            ShutdownAction::Complete,
        ),
        _ => (phase, ShutdownAction::Ignore),
    }
}

/// The phase reached from `start` after the events `events`, in order.
pub open spec fn shutdown_phase_after(start: ShutdownPhase, events: Seq<ShutdownEvent>) -> ShutdownPhase
    decreases events.len(),
{
    if events.len() == 0 {
        start
    } else {
        shutdown_step(shutdown_phase_after(start, events.drop_last()), events.last()).0
    }
}

/// The action taken on the `k`-th of the events `events`, from `start`.
pub open spec fn shutdown_action_at(start: ShutdownPhase, events: Seq<ShutdownEvent>, k: int) -> ShutdownAction
    recommends
        0 <= k < events.len(),
{
    shutdown_step(shutdown_phase_after(start, events.take(k)), events[k]).1
}

/// The shutdown of a running manager.
pub struct Shutdown {
    phase: ShutdownPhase,
}

impl View for Shutdown {
    type V = ShutdownPhase;

    closed spec fn view(&self) -> ShutdownPhase {
        self.phase
    }
}

impl Shutdown {
    /// A manager that runs, with no signal yet.
    pub fn new() -> (s: Self)
        ensures
            s@ == ShutdownPhase::Running,
    {
        Shutdown { phase: ShutdownPhase::Running }
    }

    /// Where the shutdown stands.
    pub fn phase(&self) -> (p: ShutdownPhase)
        ensures
            p == self@,
    {
        self.phase
    }

    /// Takes one event and returns the action to perform.
    pub fn step(&mut self, event: ShutdownEvent) -> (a: ShutdownAction)
        ensures
            (final(self)@, a) == shutdown_step(old(self)@, event),
    {
        match self.phase {
            ShutdownPhase::Running => match event {
                ShutdownEvent::ManagerStopped => {
                    self.phase = ShutdownPhase::Finished;
                    ShutdownAction::ReportUnexpectedStop
                },
                ShutdownEvent::SignalReceived => {
                    self.phase = ShutdownPhase::Draining;
                    ShutdownAction::CancelAndWait { grace_secs: SHUTDOWN_GRACE_SECS }
                },
                _ => ShutdownAction::Ignore,
            },
            ShutdownPhase::Draining => match event {
                ShutdownEvent::DrainCompleted => {
                    self.phase = ShutdownPhase::Finished;
                    ShutdownAction::Complete
                },
                ShutdownEvent::GraceExpired => {
                    self.phase = ShutdownPhase::Aborting;
                    ShutdownAction::AbortManager
                },
                _ => ShutdownAction::Ignore,
            },
            ShutdownPhase::Aborting => match event {
                ShutdownEvent::AbortCompleted => {
                    self.phase = ShutdownPhase::Finished;
                    ShutdownAction::Complete
                },
                _ => ShutdownAction::Ignore,
            },
            ShutdownPhase::Finished => ShutdownAction::Ignore,
        }
    }
}

/// The manager is cancelled only on a shutdown signal, and only while it runs.
pub proof fn lemma_cancel_only_on_signal(start: ShutdownPhase, events: Seq<ShutdownEvent>, k: int)
    requires
        0 <= k < events.len(),
        shutdown_action_at(start, events, k) is CancelAndWait,
    ensures
        events[k] == ShutdownEvent::SignalReceived,
        shutdown_phase_after(start, events.take(k)) == ShutdownPhase::Running,
{
}

/// The tasks are aborted only after they were cancelled and their grace period
/// ran out: from a running manager, an abort is preceded by a cancellation.
pub proof fn lemma_abort_follows_cancel(events: Seq<ShutdownEvent>, k: int)
    requires
        0 <= k < events.len(),
        shutdown_action_at(ShutdownPhase::Running, events, k) == ShutdownAction::AbortManager,
    ensures
        events[k] == ShutdownEvent::GraceExpired,
        exists|j: int|
            0 <= j < k && (#[trigger] shutdown_action_at(ShutdownPhase::Running, events, j)) is CancelAndWait,
{
    lemma_draining_follows_cancel(events, k);
}

/// Once past the running phase, a cancellation happened earlier.
proof fn lemma_draining_follows_cancel(events: Seq<ShutdownEvent>, k: int)
    requires
        0 <= k <= events.len(),
    ensures
        shutdown_phase_after(ShutdownPhase::Running, events.take(k)) == ShutdownPhase::Draining
            || shutdown_phase_after(ShutdownPhase::Running, events.take(k)) == ShutdownPhase::Aborting
            ==> exists|j: int|
            0 <= j < k && (#[trigger] shutdown_action_at(ShutdownPhase::Running, events, j)) is CancelAndWait,
    decreases k,
{
    if k > 0 {
        let prefix = events.take(k);
        assert(prefix.drop_last() =~= events.take(k - 1));
        assert(prefix.last() == events[k - 1]);
        lemma_draining_follows_cancel(events, k - 1);
        let before = shutdown_phase_after(ShutdownPhase::Running, events.take(k - 1));
        if before == ShutdownPhase::Running {
            if shutdown_phase_after(ShutdownPhase::Running, prefix) == ShutdownPhase::Draining {
                assert(shutdown_action_at(ShutdownPhase::Running, events, k - 1) is CancelAndWait);
            }
        }
    } else {
        assert(events.take(0) =~= Seq::<ShutdownEvent>::empty());
    }
}

/// Shutdown is final: once finished, every later event is ignored.
pub proof fn lemma_finished_is_final(start: ShutdownPhase, events: Seq<ShutdownEvent>, j: int, k: int)
    requires
        0 <= j <= k <= events.len(),
        shutdown_phase_after(start, events.take(j)) == ShutdownPhase::Finished,
    ensures
        shutdown_phase_after(start, events.take(k)) == ShutdownPhase::Finished,
        k < events.len() ==> shutdown_action_at(start, events, k) == ShutdownAction::Ignore,
    decreases k - j,
{
    if k > j {
        let prefix = events.take(k);
        assert(prefix.drop_last() =~= events.take(k - 1));
        assert(prefix.last() == events[k - 1]);
        lemma_finished_is_final(start, events, j, k - 1);
    }
}

} // verus!
