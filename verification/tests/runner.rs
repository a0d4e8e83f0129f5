use recurring_tasks::runner::{
    task_spawn, LoopAction, LoopEvent, LoopPhase, PreviousRun, TaskLoop, TickDecision,
};
use recurring_tasks::shutdown::{
    Shutdown, ShutdownAction, ShutdownEvent, ShutdownPhase, SHUTDOWN_GRACE_SECS,
};

#[test]
fn a_run_in_progress_is_not_started_again() {
    assert_eq!(task_spawn(PreviousRun::NeverStarted), TickDecision::Spawn);
    assert_eq!(task_spawn(PreviousRun::Finished), TickDecision::Spawn);
    assert_eq!(task_spawn(PreviousRun::Running), TickDecision::Skip);
}

#[test]
fn loop_waits_for_delay_then_runs_on_each_free_tick() {
    let mut l = TaskLoop::new();
    assert_eq!(l.phase(), LoopPhase::AwaitingFirstRun);
    assert_eq!(l.step(LoopEvent::Tick(PreviousRun::NeverStarted)), LoopAction::Ignore);
    assert_eq!(l.step(LoopEvent::DelayElapsed), LoopAction::StartTicker);
    assert_eq!(l.phase(), LoopPhase::Ticking);
    assert_eq!(l.step(LoopEvent::Tick(PreviousRun::NeverStarted)), LoopAction::SpawnRun);
    assert_eq!(l.step(LoopEvent::Tick(PreviousRun::Running)), LoopAction::SkipRun);
    assert_eq!(l.step(LoopEvent::Tick(PreviousRun::Running)), LoopAction::SkipRun);
    assert_eq!(l.step(LoopEvent::Tick(PreviousRun::Finished)), LoopAction::SpawnRun);
    assert_eq!(l.step(LoopEvent::DelayElapsed), LoopAction::Ignore);
    assert_eq!(l.phase(), LoopPhase::Ticking);
}

#[test]
fn cancelled_loop_starts_no_more_runs() {
    let mut l = TaskLoop::new();
    assert_eq!(l.step(LoopEvent::DelayElapsed), LoopAction::StartTicker);
    assert_eq!(l.step(LoopEvent::Tick(PreviousRun::NeverStarted)), LoopAction::SpawnRun);
    assert_eq!(l.step(LoopEvent::Cancelled), LoopAction::Exit);
    assert_eq!(l.phase(), LoopPhase::Stopped);
    for event in [
        LoopEvent::Tick(PreviousRun::Finished),
        LoopEvent::Tick(PreviousRun::NeverStarted),
        LoopEvent::DelayElapsed,
        LoopEvent::Cancelled,
    ] {
        assert_eq!(l.step(event), LoopAction::Ignore);
        assert_eq!(l.phase(), LoopPhase::Stopped);
    }
}

#[test]
fn cancel_before_first_run_stops_the_loop() {
    let mut l = TaskLoop::new();
    assert_eq!(l.step(LoopEvent::Cancelled), LoopAction::Exit);
    assert_eq!(l.step(LoopEvent::DelayElapsed), LoopAction::Ignore);
    assert_eq!(l.phase(), LoopPhase::Stopped);
}

#[test]
fn signal_cancels_and_waits_the_grace_period() {
    let mut s = Shutdown::new();
    assert_eq!(s.phase(), ShutdownPhase::Running);
    assert_eq!(
        s.step(ShutdownEvent::SignalReceived),
        ShutdownAction::CancelAndWait { grace_secs: 20 }
    );
    assert_eq!(SHUTDOWN_GRACE_SECS, 20);
    assert_eq!(s.phase(), ShutdownPhase::Draining);
    assert_eq!(s.step(ShutdownEvent::SignalReceived), ShutdownAction::Ignore);
    assert_eq!(s.step(ShutdownEvent::DrainCompleted), ShutdownAction::Complete);
    assert_eq!(s.phase(), ShutdownPhase::Finished);
}

#[test]
fn grace_period_running_out_aborts_the_tasks() {
    let mut s = Shutdown::new();
    assert_eq!(s.step(ShutdownEvent::GraceExpired), ShutdownAction::Ignore);
    assert_eq!(s.step(ShutdownEvent::AbortCompleted), ShutdownAction::Ignore);
    assert!(matches!(
        s.step(ShutdownEvent::SignalReceived),
        ShutdownAction::CancelAndWait { .. }
    ));
    assert_eq!(s.step(ShutdownEvent::GraceExpired), ShutdownAction::AbortManager);
    assert_eq!(s.phase(), ShutdownPhase::Aborting);
    assert_eq!(s.step(ShutdownEvent::DrainCompleted), ShutdownAction::Ignore);
    assert_eq!(s.step(ShutdownEvent::AbortCompleted), ShutdownAction::Complete);
    assert_eq!(s.step(ShutdownEvent::SignalReceived), ShutdownAction::Ignore);
    assert_eq!(s.phase(), ShutdownPhase::Finished);
}

#[test]
fn manager_stopping_by_itself_is_reported() {
    let mut s = Shutdown::new();
    assert_eq!(s.step(ShutdownEvent::ManagerStopped), ShutdownAction::ReportUnexpectedStop);
    assert_eq!(s.phase(), ShutdownPhase::Finished);
    assert_eq!(s.step(ShutdownEvent::SignalReceived), ShutdownAction::Ignore);
}
