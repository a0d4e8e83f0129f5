//! The decisions of the loop that runs one task on its schedule: wait for the
//! first scheduled time, then on every tick start a run unless the previous run
//! is still going, until the manager is cancelled.
//!
//! The asynchronous runner performs each action and reports each event; the
//! choices themselves are made here.
use vstd::prelude::*;

verus! {

/// What the runner sees of the task's previous run when the timer ticks.
#[derive(Debug, Clone, Copy, PartialEq, Eq, Structural)]
pub enum PreviousRun {
    /// The task has not been run by this loop yet.
    NeverStarted,
    /// The previous run has not finished.
    Running,
    /// The previous run has finished.
    Finished,
}

/// What to do with a tick of the timer.
#[derive(Debug, Clone, Copy, PartialEq, Eq, Structural)]
pub enum TickDecision {
    /// Start a new run of the task.
    Spawn,
    /// Skip this tick: the previous run has not finished.
    Skip,
}

/// A new run may start only when no earlier run is still going.
pub open spec fn may_start_run(previous: PreviousRun) -> bool {
    previous != PreviousRun::Running
}

/// Decides whether a tick starts a new run of the task: a run is skipped when
/// the previous one has not finished, so a task never runs twice at once.
pub fn task_spawn(previous: PreviousRun) -> (d: TickDecision)
    ensures
        d == (if may_start_run(previous) {
            TickDecision::Spawn
        } else {
            TickDecision::Skip
        }),
{
    match previous {
        PreviousRun::Running => TickDecision::Skip,
        _ => TickDecision::Spawn,
    }
}

/// Where the loop of one task stands.
#[derive(Debug, Clone, Copy, PartialEq, Eq, Structural)]
pub enum LoopPhase {
    /// Waiting for the initial delay to pass.
    AwaitingFirstRun,
    /// Running on the timer.
    Ticking,
    /// The manager was cancelled; the loop has ended.
    Stopped,
}

/// What the runner reports to the loop.
#[derive(Debug, Clone, Copy, PartialEq, Eq, Structural)]
pub enum LoopEvent {
    /// The initial delay has passed.
    DelayElapsed,
    /// The timer ticked; carries what the runner sees of the previous run.
    Tick(PreviousRun),
    /// The manager's cancellation token was cancelled.
    Cancelled,
}

/// What the runner is to do next.
#[derive(Debug, Clone, Copy, PartialEq, Eq, Structural)]
pub enum LoopAction {
    /// Start the timer at the task's interval; its first tick is immediate.
    StartTicker,
    /// Start a new run of the task, with its own child cancellation token.
    SpawnRun,
    /// Leave the previous run alone and wait for the next tick.
    SkipRun,
    /// End the loop.
    Exit,
    /// Nothing to do.
    Ignore,
}

/// One step of a task's loop: the next phase and the action to perform.
pub open spec fn loop_step(phase: LoopPhase, event: LoopEvent) -> (LoopPhase, LoopAction) {
    match phase {
        LoopPhase::AwaitingFirstRun => match event {
            LoopEvent::DelayElapsed => (LoopPhase::Ticking, LoopAction::StartTicker),
            LoopEvent::Cancelled => (LoopPhase::Stopped, LoopAction::Exit),
            LoopEvent::Tick(_) => (phase, LoopAction::Ignore),
        },
        LoopPhase::Ticking => match event {
            LoopEvent::Tick(previous) => (
                phase,
                if may_start_run(previous) {
                    LoopAction::SpawnRun
                } else {
                    LoopAction::SkipRun
                },
            ),
            LoopEvent::Cancelled => (LoopPhase::Stopped, LoopAction::Exit),
            LoopEvent::DelayElapsed => (phase, LoopAction::Ignore),
        },
        LoopPhase::Stopped => (phase, LoopAction::Ignore),
    }
}

/// The phase reached from `start` after the events `events`, in order.
pub open spec fn phase_after(start: LoopPhase, events: Seq<LoopEvent>) -> LoopPhase
    decreases events.len(),
{
    if events.len() == 0 {
        start
    } else {
        loop_step(phase_after(start, events.drop_last()), events.last()).0
    }
}

/// The action taken on the `k`-th of the events `events`, from `start`.
pub open spec fn action_at(start: LoopPhase, events: Seq<LoopEvent>, k: int) -> LoopAction
    recommends
        0 <= k < events.len(),
{
    loop_step(phase_after(start, events.take(k)), events[k]).1
}

/// The loop of one task.
pub struct TaskLoop {
    phase: LoopPhase,
}

impl View for TaskLoop {
    type V = LoopPhase;

    closed spec fn view(&self) -> LoopPhase {
        self.phase
    }
}

impl TaskLoop {
    /// A loop waiting for its task's first scheduled time.
    pub fn new() -> (l: Self)
        ensures
            l@ == LoopPhase::AwaitingFirstRun,
    {
        TaskLoop { phase: LoopPhase::AwaitingFirstRun }
    }

    /// Where the loop stands.
    pub fn phase(&self) -> (p: LoopPhase)
        ensures
            p == self@,
    {
        self.phase
    }

    /// Takes one event and returns the action to perform.
    pub fn step(&mut self, event: LoopEvent) -> (a: LoopAction)
        ensures
            (final(self)@, a) == loop_step(old(self)@, event),
    {
        match self.phase {
            LoopPhase::AwaitingFirstRun => match event {
                LoopEvent::DelayElapsed => {
                    self.phase = LoopPhase::Ticking;
                    LoopAction::StartTicker
                },
                LoopEvent::Cancelled => {
                    self.phase = LoopPhase::Stopped;
                    LoopAction::Exit
                },
                LoopEvent::Tick(_) => LoopAction::Ignore,
            },
            LoopPhase::Ticking => match event {
                LoopEvent::Tick(previous) => match task_spawn(previous) {
                    TickDecision::Spawn => LoopAction::SpawnRun,
                    TickDecision::Skip => LoopAction::SkipRun,
                },
                LoopEvent::Cancelled => {
                    self.phase = LoopPhase::Stopped;
                    LoopAction::Exit
                },
                LoopEvent::DelayElapsed => LoopAction::Ignore,
            },
            LoopPhase::Stopped => LoopAction::Ignore,
        }
    }
}

/// A task never runs twice at once: whenever the loop starts a run, the timer
/// has just ticked and the previous run, if any, has finished.
pub proof fn lemma_spawn_only_when_previous_done(start: LoopPhase, events: Seq<LoopEvent>, k: int)
    requires
        0 <= k < events.len(),
        action_at(start, events, k) == LoopAction::SpawnRun,
    ensures
        events[k] matches LoopEvent::Tick(previous) && previous != PreviousRun::Running,
        phase_after(start, events.take(k)) == LoopPhase::Ticking,
{
}

/// Cancellation is final: once the loop has seen `Cancelled`, it is stopped
/// and every later event is ignored, so no run starts after it.
pub proof fn lemma_nothing_after_cancel(start: LoopPhase, events: Seq<LoopEvent>, j: int, k: int)
    requires
        0 <= j < k <= events.len(),
        events[j] == LoopEvent::Cancelled,
    ensures
        phase_after(start, events.take(k)) == LoopPhase::Stopped,
        k < events.len() ==> action_at(start, events, k) == LoopAction::Ignore,
    decreases k - j,
{
    let prefix = events.take(k);
    assert(prefix.drop_last() =~= events.take(k - 1));
    assert(prefix.last() == events[k - 1]);
    if k - 1 > j {
        lemma_nothing_after_cancel(start, events, j, k - 1);
    }
}

/// No run starts before the initial delay has passed: every run is preceded by
/// a `DelayElapsed` event, when starting from the waiting phase.
pub proof fn lemma_first_run_after_delay(events: Seq<LoopEvent>, k: int)
    requires
        0 <= k < events.len(),
        action_at(LoopPhase::AwaitingFirstRun, events, k) == LoopAction::SpawnRun,
    ensures
        exists|j: int| 0 <= j < k && events[j] == LoopEvent::DelayElapsed,
{
    lemma_leaving_wait_needs_delay(events, k);
}

/// Leaving the waiting phase for the timer takes a `DelayElapsed` event.
proof fn lemma_leaving_wait_needs_delay(events: Seq<LoopEvent>, k: int)
    requires
        0 <= k <= events.len(),
    ensures
        phase_after(LoopPhase::AwaitingFirstRun, events.take(k)) == LoopPhase::Ticking ==> exists|
            j: int,
        | 0 <= j < k && events[j] == LoopEvent::DelayElapsed,
    decreases k,
{
    if k > 0 {
        let prefix = events.take(k);
        assert(prefix.drop_last() =~= events.take(k - 1));
        assert(prefix.last() == events[k - 1]);
        lemma_leaving_wait_needs_delay(events, k - 1);
        if phase_after(LoopPhase::AwaitingFirstRun, prefix) == LoopPhase::Ticking {
            let before = phase_after(LoopPhase::AwaitingFirstRun, events.take(k - 1));
            if before != LoopPhase::Ticking {
                assert(events[k - 1] == LoopEvent::DelayElapsed);
            }
        }
    } else {
        assert(events.take(0) =~= Seq::<LoopEvent>::empty());
    }
}

} // verus!
