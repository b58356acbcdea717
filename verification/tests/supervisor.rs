use waystt_wrapper::supervisor::{
    cancel_action, dismiss_action, exit_code_of_status, exit_code_of_wait, FAILURE_EXIT_CODE,
    HOST_DISMISS_EXIT_CODE, POLL_INTERVAL_MS,
};
use waystt_wrapper::{
    CancelAction, ChildProcess, DismissAction, Phase, PollAction, PollObservation, ProcessError,
    StartupAction, StartupOutcome, Supervisor, TerminationReason, WaitAction, WaitOutcome,
};

/// A process identifier that no process has: above the largest that Linux
/// hands out. A signal sent to it fails and reaches nobody.
const NO_SUCH_PID: u32 = 0x7fff_ffff;

fn absent_child() -> ChildProcess {
    ChildProcess::from_pid(NO_SUCH_PID).unwrap()
}

fn running() -> Supervisor {
    let mut supervisor = Supervisor::new();
    let action = supervisor.on_activate(StartupOutcome::Ready(absent_child()));
    assert!(matches!(action, StartupAction::Present));
    supervisor
}

#[test]
fn a_new_supervisor_is_starting_with_exit_code_zero() {
    let supervisor = Supervisor::new();
    assert_eq!(supervisor.phase(), Phase::Starting);
    assert_eq!(supervisor.exit_code(), 0);
    assert_eq!(supervisor.process_exit_code(), 0);
    assert_eq!(supervisor.termination_reason(), None);
    assert!(!supervisor.holds_child());
    assert_eq!(supervisor.child_pid(), None);
}

#[test]
fn a_ready_child_is_put_into_the_slot() {
    let supervisor = running();
    assert_eq!(supervisor.phase(), Phase::Running);
    assert!(supervisor.holds_child());
    assert_eq!(supervisor.child_pid(), Some(NO_SUCH_PID));
    assert_eq!(supervisor.exit_code(), 0);
}

#[test]
fn a_failed_spawn_ends_the_run_with_exit_code_one() {
    let mut supervisor = Supervisor::new();
    let action = supervisor.on_activate(StartupOutcome::SpawnFailed);
    assert!(matches!(action, StartupAction::Abort));
    assert_eq!(supervisor.phase(), Phase::Terminated);
    assert_eq!(supervisor.exit_code(), 1);
    assert_eq!(supervisor.termination_reason(), None);
    assert!(!supervisor.holds_child());
}

#[test]
fn a_failed_surface_ends_the_run_and_hands_the_child_back() {
    let mut supervisor = Supervisor::new();
    let action = supervisor.on_activate(StartupOutcome::SurfaceFailed(absent_child()));
    match action {
        StartupAction::Abandon(child) => assert_eq!(child.pid(), NO_SUCH_PID),
        other => panic!("unexpected action {:?}", other),
    }
    assert_eq!(supervisor.phase(), Phase::Terminated);
    assert_eq!(supervisor.exit_code(), 1);
    assert!(!supervisor.holds_child());
}

#[test]
fn a_second_start_changes_nothing_and_hands_the_child_back() {
    let mut supervisor = running();
    let second = ChildProcess::from_pid(NO_SUCH_PID - 1).unwrap();
    let action = supervisor.on_activate(StartupOutcome::Ready(second));
    match action {
        StartupAction::Abandon(child) => assert_eq!(child.pid(), NO_SUCH_PID - 1),
        other => panic!("unexpected action {:?}", other),
    }
    assert_eq!(supervisor.phase(), Phase::Running);
    assert_eq!(supervisor.child_pid(), Some(NO_SUCH_PID));
    let action = supervisor.on_activate(StartupOutcome::SpawnFailed);
    assert!(matches!(action, StartupAction::Abort));
    assert_eq!(supervisor.phase(), Phase::Running);
    assert_eq!(supervisor.exit_code(), 0);
}

#[test]
fn exactly_one_trigger_takes_the_handle() {
    // Every order of the three triggers: the first takes, the others find
    // the slot empty.
    let orders: [[u8; 3]; 6] =
        [[0, 1, 2], [0, 2, 1], [1, 0, 2], [1, 2, 0], [2, 0, 1], [2, 1, 0]];
    for order in orders {
        let mut supervisor = running();
        let mut takes = 0;
        for trigger in order {
            let held = supervisor.holds_child();
            match trigger {
                0 => {
                    let action = supervisor.initiate_shutdown();
                    assert_eq!(matches!(action, CancelAction::AwaitExit { .. }), held);
                }
                1 => {
                    let action = supervisor.on_poll_tick(PollObservation::Exited(Some(7)));
                    assert_eq!(matches!(action, PollAction::CloseSurface(_)), held);
                }
                _ => {
                    let action = supervisor.on_close_request();
                    assert_eq!(!matches!(action, DismissAction::Ignored), held);
                }
            }
            if held {
                takes += 1;
            }
            assert!(!supervisor.holds_child());
        }
        assert_eq!(takes, 1);
    }
}

#[test]
fn the_exit_code_is_written_once_whichever_trigger_fires() {
    // The poller wins: later events leave its code alone.
    let mut supervisor = running();
    supervisor.on_poll_tick(PollObservation::Exited(Some(7)));
    assert_eq!(supervisor.phase(), Phase::Terminated);
    supervisor.on_close_request();
    supervisor.initiate_shutdown();
    supervisor.on_wait_completed(WaitOutcome::Exited(Some(9)));
    supervisor.on_poll_tick(PollObservation::Exited(Some(11)));
    supervisor.on_activate(StartupOutcome::SpawnFailed);
    assert_eq!(supervisor.exit_code(), 7);
    assert_eq!(supervisor.termination_reason(), Some(TerminationReason::ChildExitedUnexpectedly));

    // The cancel gesture wins: nothing is written until the wait returns.
    let mut supervisor = running();
    supervisor.initiate_shutdown();
    assert_eq!(supervisor.phase(), Phase::ShuttingDown);
    assert_eq!(supervisor.exit_code(), 0);
    supervisor.on_close_request();
    supervisor.on_poll_tick(PollObservation::Exited(Some(11)));
    assert_eq!(supervisor.phase(), Phase::ShuttingDown);
    assert_eq!(supervisor.exit_code(), 0);
    supervisor.on_wait_completed(WaitOutcome::Exited(Some(9)));
    assert_eq!(supervisor.phase(), Phase::Terminated);
    assert_eq!(supervisor.exit_code(), 9);
    supervisor.on_wait_completed(WaitOutcome::Exited(Some(10)));
    assert_eq!(supervisor.exit_code(), 9);
    assert_eq!(supervisor.termination_reason(), Some(TerminationReason::UserCancelled));
}

#[test]
fn host_dismiss_yields_130_whatever_the_child_reports() {
    let mut supervisor = running();
    let action = supervisor.on_close_request();
    assert!(!matches!(action, DismissAction::Ignored));
    assert_eq!(supervisor.exit_code(), 130);
    assert_eq!(supervisor.exit_code(), HOST_DISMISS_EXIT_CODE);
    assert_eq!(supervisor.process_exit_code(), 130);
    assert_eq!(supervisor.phase(), Phase::Terminated);
    assert_eq!(supervisor.termination_reason(), Some(TerminationReason::HostDismissed));
    supervisor.on_poll_tick(PollObservation::Exited(Some(0)));
    supervisor.on_wait_completed(WaitOutcome::Exited(Some(3)));
    assert_eq!(supervisor.exit_code(), 130);
}

#[test]
fn a_child_that_exits_with_7_ends_the_run_with_7() {
    let mut supervisor = running();
    assert!(matches!(supervisor.on_poll_tick(PollObservation::StillRunning), PollAction::Continue));
    assert_eq!(supervisor.phase(), Phase::Running);
    let action = supervisor.on_poll_tick(PollObservation::Exited(Some(7)));
    match action {
        PollAction::CloseSurface(child) => assert_eq!(child.pid(), NO_SUCH_PID),
        other => panic!("unexpected action {:?}", other),
    }
    assert_eq!(supervisor.exit_code(), 7);
    assert_eq!(supervisor.process_exit_code(), 7);
    assert!(matches!(supervisor.on_poll_tick(PollObservation::StillRunning), PollAction::Stop));
    assert!(matches!(supervisor.on_poll_tick(PollObservation::Exited(Some(8))), PollAction::Stop));
    assert_eq!(supervisor.exit_code(), 7);
}

#[test]
fn a_failed_poll_ends_the_run_with_the_failure_code() {
    let mut supervisor = running();
    let action = supervisor.on_poll_tick(PollObservation::Failed);
    assert!(matches!(action, PollAction::CloseSurface(_)));
    assert_eq!(supervisor.exit_code(), 1);
    assert_eq!(supervisor.phase(), Phase::Terminated);

    let mut supervisor = running();
    supervisor.on_poll_tick(PollObservation::Exited(None));
    assert_eq!(supervisor.exit_code(), 1);
}

#[test]
fn the_poller_stops_before_the_run_has_a_child() {
    let mut supervisor = Supervisor::new();
    assert!(matches!(supervisor.on_poll_tick(PollObservation::StillRunning), PollAction::Stop));
    assert!(matches!(supervisor.on_poll_tick(PollObservation::Exited(Some(5))), PollAction::Stop));
    assert_eq!(supervisor.phase(), Phase::Starting);
    assert_eq!(supervisor.exit_code(), 0);
}

#[test]
fn handle_unexpected_exit_takes_the_child_once() {
    let mut supervisor = running();
    let taken = supervisor.handle_unexpected_exit(Some(42));
    assert_eq!(taken.map(|child| child.pid()), Some(NO_SUCH_PID));
    assert_eq!(supervisor.exit_code(), 42);
    assert!(supervisor.handle_unexpected_exit(Some(43)).is_none());
    assert_eq!(supervisor.exit_code(), 42);
}

#[test]
fn a_failed_graceful_signal_still_leads_to_the_wait() {
    // The child does not exist, so the signal cannot be delivered.
    let mut supervisor = running();
    let action = supervisor.initiate_shutdown();
    match action {
        CancelAction::AwaitExit { child, signal_failure } => {
            assert_eq!(child.pid(), NO_SUCH_PID);
            assert!(matches!(signal_failure, Some(ProcessError::SignalFailed(_))));
        }
        other => panic!("unexpected action {:?}", other),
    }
    assert_eq!(supervisor.phase(), Phase::ShuttingDown);
    let action = supervisor.on_wait_completed(WaitOutcome::Exited(Some(5)));
    assert_eq!(action, WaitAction::CloseSurface);
    assert_eq!(supervisor.exit_code(), 5);
    assert_eq!(supervisor.phase(), Phase::Terminated);
}

#[test]
fn a_wait_that_fails_ends_the_run_with_the_failure_code() {
    for outcome in [WaitOutcome::WaitFailed, WaitOutcome::WorkerFailed, WaitOutcome::Exited(None)] {
        let mut supervisor = running();
        supervisor.initiate_shutdown();
        assert_eq!(supervisor.on_wait_completed(outcome), WaitAction::CloseSurface);
        assert_eq!(supervisor.exit_code(), 1);
    }
}

#[test]
fn a_wait_result_without_a_shutdown_in_flight_is_ignored() {
    let mut supervisor = Supervisor::new();
    assert_eq!(supervisor.on_wait_completed(WaitOutcome::Exited(Some(4))), WaitAction::Ignored);
    assert_eq!(supervisor.phase(), Phase::Starting);
    let mut supervisor = running();
    assert_eq!(supervisor.on_wait_completed(WaitOutcome::Exited(Some(4))), WaitAction::Ignored);
    assert_eq!(supervisor.phase(), Phase::Running);
    assert_eq!(supervisor.exit_code(), 0);
    assert!(supervisor.holds_child());
}

#[test]
fn a_dismiss_whose_signal_fails_force_kills() {
    let mut supervisor = running();
    match supervisor.on_close_request() {
        DismissAction::ForceKill { child, cause } => {
            assert_eq!(child.pid(), NO_SUCH_PID);
            assert!(matches!(cause, ProcessError::SignalFailed(_)));
        }
        other => panic!("unexpected action {:?}", other),
    }
    assert_eq!(supervisor.exit_code(), 130);
}

#[test]
fn a_second_dismiss_does_nothing() {
    let mut supervisor = running();
    let first = supervisor.on_close_request();
    assert!(!matches!(first, DismissAction::Ignored));
    let second = supervisor.on_close_request();
    assert!(matches!(second, DismissAction::Ignored));
    assert_eq!(supervisor.exit_code(), 130);
    assert_eq!(supervisor.phase(), Phase::Terminated);
    assert!(!supervisor.holds_child());
}

#[test]
fn a_dismiss_before_the_run_has_a_child_is_ignored() {
    let mut supervisor = Supervisor::new();
    assert!(matches!(supervisor.on_close_request(), DismissAction::Ignored));
    assert!(matches!(supervisor.initiate_shutdown(), CancelAction::Ignored));
    assert_eq!(supervisor.phase(), Phase::Starting);
    assert_eq!(supervisor.exit_code(), 0);
}

#[test]
fn the_actions_follow_the_outcome_of_the_signal() {
    let errno = nix::errno::Errno::ESRCH;
    match cancel_action(absent_child(), Ok(())) {
        CancelAction::AwaitExit { child, signal_failure } => {
            assert_eq!(child.pid(), NO_SUCH_PID);
            assert!(signal_failure.is_none());
        }
        other => panic!("unexpected action {:?}", other),
    }
    match cancel_action(absent_child(), Err(ProcessError::SignalFailed(errno))) {
        CancelAction::AwaitExit { child, signal_failure } => {
            assert_eq!(child.pid(), NO_SUCH_PID);
            assert!(matches!(signal_failure, Some(ProcessError::SignalFailed(e)) if e == errno));
        }
        other => panic!("unexpected action {:?}", other),
    }
    match dismiss_action(absent_child(), Ok(())) {
        DismissAction::Release(child) => assert_eq!(child.pid(), NO_SUCH_PID),
        other => panic!("unexpected action {:?}", other),
    }
    match dismiss_action(absent_child(), Err(ProcessError::SignalFailed(errno))) {
        DismissAction::ForceKill { child, cause } => {
            assert_eq!(child.pid(), NO_SUCH_PID);
            assert!(matches!(cause, ProcessError::SignalFailed(e) if e == errno));
        }
        other => panic!("unexpected action {:?}", other),
    }
}

#[test]
fn exit_codes_of_statuses_and_waits() {
    assert_eq!(POLL_INTERVAL_MS, 100);
    assert_eq!(FAILURE_EXIT_CODE, 1);
    assert_eq!(exit_code_of_status(Some(0)), 0);
    assert_eq!(exit_code_of_status(Some(7)), 7);
    assert_eq!(exit_code_of_status(Some(-3)), -3);
    assert_eq!(exit_code_of_status(None), 1);
    assert_eq!(exit_code_of_wait(WaitOutcome::Exited(Some(12))), 12);
    assert_eq!(exit_code_of_wait(WaitOutcome::Exited(None)), 1);
    assert_eq!(exit_code_of_wait(WaitOutcome::WaitFailed), 1);
    assert_eq!(exit_code_of_wait(WaitOutcome::WorkerFailed), 1);
}

#[test]
fn termination_reasons_decide_the_exit_code() {
    assert_eq!(TerminationReason::UserCancelled.commit_code(5), 5);
    assert_eq!(TerminationReason::ChildExitedUnexpectedly.commit_code(6), 6);
    assert_eq!(TerminationReason::HostDismissed.commit_code(7), 130);
}

#[test]
fn the_process_exit_code_is_the_low_byte() {
    let mut supervisor = running();
    supervisor.on_poll_tick(PollObservation::Exited(Some(263)));
    assert_eq!(supervisor.exit_code(), 263);
    assert_eq!(supervisor.process_exit_code(), 7);

    let mut supervisor = running();
    supervisor.on_poll_tick(PollObservation::Exited(Some(-1)));
    assert_eq!(supervisor.exit_code(), -1);
    assert_eq!(supervisor.process_exit_code(), 255);
}
