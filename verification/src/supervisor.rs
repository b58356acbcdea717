//! The shutdown coordinator.
//!
//! One slot holds the handle of the supervised child. Three triggers compete
//! for it: the user's cancel gesture, the poller that notices an exit nobody
//! asked for, and the host that dismisses the surface. Whoever empties the
//! slot owns the shutdown and commits the exit code of the run; the others
//! find the slot empty and do nothing.
//!
//! The coordinator never blocks and touches no surface. Each method takes
//! what the outside world reported, moves the state, and answers with the
//! action that the caller has to perform.

use vstd::prelude::*;
use crate::process::{ChildProcess, ProcessError};

verus! {

/// Exit code of a run whose child could not be started, waited for, or whose
/// status carries no code.
pub const FAILURE_EXIT_CODE: i32 = 1;

/// Exit code of a run that the host ended by dismissing the surface.
pub const HOST_DISMISS_EXIT_CODE: i32 = 130;

/// The time between two looks of the poller at the child, in milliseconds.
pub const POLL_INTERVAL_MS: u64 = 100;

/// Where a run stands.
#[derive(Clone, Copy, Debug, PartialEq, Eq, Structural)]
pub enum Phase {
    /// No child has been handed over yet.
    Starting,
    /// The slot holds the child.
    Running,
    /// The slot has been emptied and the exit code is not yet committed. A
    /// run rests in this phase after the cancel gesture, while the child is
    /// being reaped; the poller and the host commit in the same step in
    /// which they take the handle.
    ShuttingDown,
    /// The exit code is committed.
    Terminated,
}

/// Which trigger ended the run.
#[derive(Clone, Copy, Debug, PartialEq, Eq, Structural)]
pub enum TerminationReason {
    /// The user asked for the shutdown.
    UserCancelled,
    /// The child exited although nobody had asked it to.
    ChildExitedUnexpectedly,
    /// The host dismissed the surface.
    HostDismissed,
}

/// How the start of a run went.
#[derive(Debug)]
pub enum StartupOutcome {
    /// The child could not be created.
    SpawnFailed,
    /// The child runs, but the surface could not be created.
    SurfaceFailed(ChildProcess),
    /// The child runs and the surface exists.
    Ready(ChildProcess),
}

/// What the blocking wait for the child brought back.
#[derive(Clone, Copy, Debug, PartialEq, Eq, Structural)]
pub enum WaitOutcome {
    /// The child is gone; its exit code, if it left one.
    Exited(Option<i32>),
    /// The wait itself failed.
    WaitFailed,
    /// The worker that ran the wait did not deliver a result.
    WorkerFailed,
}

/// What one non-blocking look at the child showed.
#[derive(Clone, Copy, Debug, PartialEq, Eq, Structural)]
pub enum PollObservation {
    /// The child is still running.
    StillRunning,
    /// The child is gone; its exit code, if it left one.
    Exited(Option<i32>),
    /// The look itself failed.
    Failed,
}

/// Everything that can happen to a run.
#[derive(Debug)]
pub enum Event {
    /// The start of the run was attempted.
    Startup(StartupOutcome),
    /// The user made the cancel gesture.
    CancelGesture,
    /// The blocking wait that followed a cancel gesture returned.
    WaitCompleted(WaitOutcome),
    /// The poller looked at the child.
    PollTick(PollObservation),
    /// The host asked for the surface to be dismissed.
    DismissRequested,
}

/// What the caller has to do after the start of a run.
#[derive(Debug)]
pub enum StartupAction {
    /// Show the surface and install the three triggers.
    Present,
    /// Give up; there is no child.
    Abort,
    /// Give up and terminate this child, which nothing will supervise.
    Abandon(ChildProcess),
}

/// What the caller has to do after a cancel gesture.
#[derive(Debug)]
pub enum CancelAction {
    /// Another trigger owns the shutdown, or there is nothing to shut down.
    Ignored,
    /// Show the stopping state and wait for `child` off the event loop.
    AwaitExit {
        /// The child to reap.
        child: ChildProcess,
        /// Why the graceful signal did not reach the child, if it did not.
        signal_failure: Option<ProcessError>,
    },
}

/// What the caller has to do after the host asked to dismiss the surface.
#[derive(Debug)]
pub enum DismissAction {
    /// Another trigger owns the shutdown, or there is nothing to shut down.
    Ignored,
    /// The child was asked to stop; let go of it.
    Release(ChildProcess),
    /// The child could not be asked: terminate it at once.
    ForceKill {
        /// The child to terminate.
        child: ChildProcess,
        /// Why the graceful signal did not reach it.
        cause: ProcessError,
    },
}

/// What the poller has to do after a look at the child.
#[derive(Debug)]
pub enum PollAction {
    /// Look again at the next tick.
    Continue,
    /// Stop polling; another trigger owns the shutdown.
    Stop,
    /// Stop polling and close the surface; the child is gone.
    CloseSurface(ChildProcess),
}

/// What the caller has to do when the blocking wait has returned.
#[derive(Clone, Copy, Debug, PartialEq, Eq, Structural)]
pub enum WaitAction {
    /// The result belongs to no shutdown in flight.
    Ignored,
    /// Close the surface; the exit code is committed.
    CloseSurface,
}

/// The exit code that stands for a child's status: its own code, or the
/// failure code where it left none.
pub open spec fn status_exit_code(code: Option<i32>) -> i32 {
    match code {
        Some(c) => c,
        None => FAILURE_EXIT_CODE,
    }
}

/// The exit code that a finished wait stands for.
pub open spec fn wait_exit_code(outcome: WaitOutcome) -> i32 {
    match outcome {
        WaitOutcome::Exited(code) => status_exit_code(code),
        WaitOutcome::WaitFailed => FAILURE_EXIT_CODE,
        WaitOutcome::WorkerFailed => FAILURE_EXIT_CODE,
    }
}

/// Whether a look at the child ends the run, and with which exit code.
pub open spec fn poll_exit_code(observed: PollObservation) -> Option<i32> {
    match observed {
        PollObservation::StillRunning => None,
        PollObservation::Exited(code) => Some(status_exit_code(code)),
        PollObservation::Failed => Some(FAILURE_EXIT_CODE),
    }
}

impl TerminationReason {
    /// The exit code of a run that ended for this reason, given the code
    /// that the child's own end stands for.
    pub open spec fn exit_code(self, child_code: i32) -> i32 {
        match self {
            TerminationReason::UserCancelled => child_code,
            TerminationReason::ChildExitedUnexpectedly => child_code,
            TerminationReason::HostDismissed => HOST_DISMISS_EXIT_CODE,
        }
    }

    /// The exit code of a run that ended for this reason.
    pub fn commit_code(self, child_code: i32) -> (code: i32)
        ensures
            code == self.exit_code(child_code),
    {
        match self {
            TerminationReason::UserCancelled => child_code,
            TerminationReason::ChildExitedUnexpectedly => child_code,
            TerminationReason::HostDismissed => HOST_DISMISS_EXIT_CODE,
        }
    }
}

/// The exit code that stands for a child's status.
pub fn exit_code_of_status(code: Option<i32>) -> (r: i32)
    ensures
        r == status_exit_code(code),
{
    match code {
        Some(c) => c,
        None => FAILURE_EXIT_CODE,
    }
}

/// The exit code that a finished wait stands for.
pub fn exit_code_of_wait(outcome: WaitOutcome) -> (r: i32)
    ensures
        r == wait_exit_code(outcome),
{
    match outcome {
        WaitOutcome::Exited(code) => exit_code_of_status(code),
        WaitOutcome::WaitFailed => FAILURE_EXIT_CODE,
        WaitOutcome::WorkerFailed => FAILURE_EXIT_CODE,
    }
}

/// The mathematical state of a run.
pub struct SupervisorState {
    /// The handle of the child, while no trigger has taken it.
    pub slot: Option<ChildProcess>,
    /// Where the run stands.
    pub phase: Phase,
    /// The exit code cell.
    pub exit_code: i32,
    /// Which trigger ended the run, once one has.
    pub reason: Option<TerminationReason>,
    /// How often the exit code cell has been written.
    pub writes: nat,
}

impl SupervisorState {
    /// The state before anything has happened.
    pub open spec fn initial() -> Self {
        SupervisorState { slot: None, phase: Phase::Starting, exit_code: 0, reason: None, writes: 0 }
    }

    /// The states that a run can be in.
    pub open spec fn wf(self) -> bool {
        match self.phase {
            Phase::Starting => self.slot is None && self.exit_code == 0 && self.reason is None
                && self.writes == 0,
            Phase::Running => self.slot is Some && self.exit_code == 0 && self.reason is None
                && self.writes == 0,
            Phase::ShuttingDown => self.slot is None && self.exit_code == 0 && self.reason is None
                && self.writes == 0,
            Phase::Terminated => self.slot is None && self.writes == 1,
        }
    }

    /// The state after the slot was emptied and `code` was written to the
    /// exit code cell.
    pub open spec fn committed(self, code: i32, reason: Option<TerminationReason>) -> Self {
        SupervisorState {
            slot: None,
            phase: Phase::Terminated,
            exit_code: code,
            reason,
            writes: self.writes + 1,
        }
    }

    /// The state after `event`.
    pub open spec fn step(self, event: Event) -> Self {
        match event {
            Event::Startup(outcome) => if self.phase == Phase::Starting {
                match outcome {
                    StartupOutcome::SpawnFailed => self.committed(FAILURE_EXIT_CODE, None),
                    StartupOutcome::SurfaceFailed(_) => self.committed(FAILURE_EXIT_CODE, None),
                    StartupOutcome::Ready(child) => SupervisorState {
                        slot: Some(child),
                        phase: Phase::Running,
                        ..self
                    },
                }
            } else {
                self
            },
            Event::CancelGesture => if self.slot is Some {
                SupervisorState { slot: None, phase: Phase::ShuttingDown, ..self }
            } else {
                self
            },
            Event::WaitCompleted(outcome) => if self.phase == Phase::ShuttingDown {
                self.committed(
                    TerminationReason::UserCancelled.exit_code(wait_exit_code(outcome)),
                    Some(TerminationReason::UserCancelled),
                )
            } else {
                self
            },
            Event::PollTick(observed) => match poll_exit_code(observed) {
                Some(code) if self.slot is Some => self.committed(
                    TerminationReason::ChildExitedUnexpectedly.exit_code(code),
                    Some(TerminationReason::ChildExitedUnexpectedly),
                ),
                _ => self,
            },
            Event::DismissRequested => if self.slot is Some {
                self.committed(
                    TerminationReason::HostDismissed.exit_code(FAILURE_EXIT_CODE),
                    Some(TerminationReason::HostDismissed),
                )
            } else {
                self
            },
        }
    }

    /// The state after `events`, in order.
    pub open spec fn run(self, events: Seq<Event>) -> Self
        decreases events.len(),
    {
        if events.len() == 0 {
            self
        } else {
            self.step(events[0]).run(events.skip(1))
        }
    }

    /// Whether `event` takes the handle out of the slot.
    pub open spec fn takes(self, event: Event) -> bool {
        self.slot is Some && self.step(event).slot is None
    }

    /// How many of `events` take the handle out of the slot.
    pub open spec fn take_count(self, events: Seq<Event>) -> nat
        decreases events.len(),
    {
        if events.len() == 0 {
            0
        } else {
            (if self.takes(events[0]) {
                1nat
            } else {
                0nat
            }) + self.step(events[0]).take_count(events.skip(1))
        }
    }
}

/// What follows a cancel gesture that took `child` from the slot, for each
/// outcome of the graceful signal: the child is waited for either way.
pub open spec fn cancel_plan(child: ChildProcess, signal: Result<(), ProcessError>) -> CancelAction {
    CancelAction::AwaitExit {
        child,
        signal_failure: match signal {
            Ok(()) => None,
            Err(e) => Some(e),
        },
    }
}

/// What follows a dismiss request that took `child` from the slot, for each
/// outcome of the graceful signal: a child that could not be asked to stop
/// is terminated at once.
pub open spec fn dismiss_plan(child: ChildProcess, signal: Result<(), ProcessError>) -> DismissAction {
    match signal {
        Ok(()) => DismissAction::Release(child),
        Err(e) => DismissAction::ForceKill { child, cause: e },
    }
}

/// The action after a cancel gesture that took `child` from the slot, given
/// how the graceful signal went.
pub fn cancel_action(child: ChildProcess, signal: Result<(), ProcessError>) -> (action:
    CancelAction)
    ensures
        action == cancel_plan(child, signal),
{
    match signal {
        Ok(()) => CancelAction::AwaitExit { child, signal_failure: None },
        Err(e) => CancelAction::AwaitExit { child, signal_failure: Some(e) },
    }
}

/// The action after a dismiss request that took `child` from the slot, given
/// how the graceful signal went.
pub fn dismiss_action(child: ChildProcess, signal: Result<(), ProcessError>) -> (action:
    DismissAction)
    ensures
        action == dismiss_plan(child, signal),
{
    match signal {
        Ok(()) => DismissAction::Release(child),
        Err(e) => DismissAction::ForceKill { child, cause: e },
    }
}

/// The coordinator of one run: the slot for the child and the exit code cell.
pub struct Supervisor {
    slot: Option<ChildProcess>,
    phase: Phase,
    exit_code: i32,
    reason: Option<TerminationReason>,
    writes: Ghost<nat>,
}

impl View for Supervisor {
    type V = SupervisorState;

    closed spec fn view(&self) -> SupervisorState {
        SupervisorState {
            slot: self.slot,
            phase: self.phase,
            exit_code: self.exit_code,
            reason: self.reason,
            writes: self.writes@,
        }
    }
}

impl Supervisor {
    /// Whether the coordinator is in a state that a run can reach.
    pub open spec fn wf(&self) -> bool {
        self@.wf()
    }

    /// A coordinator for a run that has not started: the slot is empty and
    /// the exit code cell holds 0.
    pub fn new() -> (s: Supervisor)
        ensures
            s.wf(),
            s@ == SupervisorState::initial(),
    {
        Supervisor {
            slot: None,
            phase: Phase::Starting,
            exit_code: 0,
            reason: None,
            writes: Ghost(0),
        }
    }

    /// The content of the exit code cell.
    pub fn exit_code(&self) -> (code: i32)
        ensures
            code == self@.exit_code,
    {
        self.exit_code
    }

    /// The exit status that the supervisor's own process ends with: the low
    /// eight bits of the exit code cell, so the exit code itself where it is
    /// one that a process can end with.
    pub fn process_exit_code(&self) -> (code: u8)
        ensures
            code == self@.exit_code as u8,
            0 <= self@.exit_code <= 255 ==> code == self@.exit_code,
    {
        #[verifier::truncate]
        (self.exit_code as u8)
    }

    /// Where the run stands.
    pub fn phase(&self) -> (phase: Phase)
        ensures
            phase == self@.phase,
    {
        self.phase
    }

    /// Which trigger ended the run, once one has.
    pub fn termination_reason(&self) -> (reason: Option<TerminationReason>)
        ensures
            reason == self@.reason,
    {
        self.reason
    }

    /// Whether the slot holds the child, so that the poller has something to
    /// look at.
    pub fn holds_child(&self) -> (held: bool)
        ensures
            held == (self@.slot is Some),
    {
        self.slot.is_some()
    }

    /// The identifier of the child in the slot.
    pub fn child_pid(&self) -> (pid: Option<u32>)
        ensures
            pid is Some <==> self@.slot is Some,
            self@.slot matches Some(child) ==> pid == Some(child.id()),
    {
        match &self.slot {
            Some(child) => Some(child.pid()),
            None => None,
        }
    }

    /// Empties the slot and writes `code` to the exit code cell.
    fn commit(&mut self, code: i32, reason: Option<TerminationReason>)
        requires
            old(self)@.writes == 0,
        ensures
            final(self).wf(),
            final(self)@ == old(self)@.committed(code, reason),
    {
        self.slot = None;
        self.phase = Phase::Terminated;
        self.exit_code = code;
        self.reason = reason;
        self.writes = Ghost((self.writes@ + 1) as nat);
    }

    /// Takes note of how the start of the run went.
    ///
    /// A child that came with a surface is put into the slot. A run whose
    /// child or surface could not be created ends with the failure code; a
    /// child without a surface is handed back to be terminated. Once a run
    /// has started, a further start changes nothing, and a child that comes
    /// with it is handed back.
    pub fn on_activate(&mut self, outcome: StartupOutcome) -> (action: StartupAction)
        requires
            old(self).wf(),
        ensures
            final(self).wf(),
            final(self)@ == old(self)@.step(Event::Startup(outcome)),
            action == match outcome {
                StartupOutcome::SpawnFailed => StartupAction::Abort,
                StartupOutcome::SurfaceFailed(child) => StartupAction::Abandon(child),
                StartupOutcome::Ready(child) => if old(self)@.phase == Phase::Starting {
                    StartupAction::Present
                } else {
                    StartupAction::Abandon(child)
                },
            },
    {
        let starting = self.phase == Phase::Starting;
        match outcome {
            StartupOutcome::SpawnFailed => {
                if starting {
                    self.commit(FAILURE_EXIT_CODE, None);
                }
                StartupAction::Abort
            },
            StartupOutcome::SurfaceFailed(child) => {
                if starting {
                    self.commit(FAILURE_EXIT_CODE, None);
                }
                StartupAction::Abandon(child)
            },
            StartupOutcome::Ready(child) => {
                if starting {
                    self.slot = Some(child);
                    self.phase = Phase::Running;
                    StartupAction::Present
                } else {
                    StartupAction::Abandon(child)
                }
            },
        }
    }

    /// The user's cancel gesture.
    ///
    /// If the slot holds the child, the gesture takes it, asks it to stop
    /// with the graceful signal, and hands it out to be waited for, whether
    /// or not the signal arrived. Otherwise nothing happens.
    pub fn initiate_shutdown(&mut self) -> (action: CancelAction)
        requires
            old(self).wf(),
        ensures
            final(self).wf(),
            final(self)@ == old(self)@.step(Event::CancelGesture),
            match old(self)@.slot {
                None => action is Ignored,
                Some(held) => exists|signal: Result<(), ProcessError>|
                    {
                        &&& signal matches Err(e) ==> e is SignalFailed
                        &&& action == cancel_plan(held, signal)
                    },
            },
    {
        match self.slot.take() {
            None => CancelAction::Ignored,
            Some(child) => {
                self.phase = Phase::ShuttingDown;
                let signal = child.send_sigusr1();
                cancel_action(child, signal)
            },
        }
    }

    /// The blocking wait that followed the cancel gesture has returned.
    ///
    /// While that shutdown is in flight, the child's exit code is committed
    /// and the surface is to be closed. At any other time nothing happens.
    pub fn on_wait_completed(&mut self, outcome: WaitOutcome) -> (action: WaitAction)
        requires
            old(self).wf(),
        ensures
            final(self).wf(),
            final(self)@ == old(self)@.step(Event::WaitCompleted(outcome)),
            action == if old(self)@.phase == Phase::ShuttingDown {
                WaitAction::CloseSurface
            } else {
                WaitAction::Ignored
            },
    {
        if self.phase == Phase::ShuttingDown {
            let reason = TerminationReason::UserCancelled;
            self.commit(reason.commit_code(exit_code_of_wait(outcome)), Some(reason));
            WaitAction::CloseSurface
        } else {
            WaitAction::Ignored
        }
    }

    /// The child is known to be gone although nobody asked it to stop.
    ///
    /// If the slot holds the child, it is taken, the exit code that stands
    /// for `code` is committed, and the handle is returned. Otherwise nothing
    /// happens.
    pub fn handle_unexpected_exit(&mut self, code: Option<i32>) -> (taken: Option<ChildProcess>)
        requires
            old(self).wf(),
        ensures
            final(self).wf(),
            final(self)@ == old(self)@.step(Event::PollTick(PollObservation::Exited(code))),
            taken == old(self)@.slot,
    {
        match self.slot.take() {
            None => None,
            Some(child) => {
                let reason = TerminationReason::ChildExitedUnexpectedly;
                self.commit(reason.commit_code(exit_code_of_status(code)), Some(reason));
                Some(child)
            },
        }
    }

    /// One tick of the poller, with what its look at the child showed.
    ///
    /// With the slot empty the poller stops. A child that is still running is
    /// looked at again. A child that is gone ends the run with its exit code,
    /// and a look that failed ends it with the failure code.
    pub fn on_poll_tick(&mut self, observed: PollObservation) -> (action: PollAction)
        requires
            old(self).wf(),
        ensures
            final(self).wf(),
            final(self)@ == old(self)@.step(Event::PollTick(observed)),
            action == match old(self)@.slot {
                None => PollAction::Stop,
                Some(held) => if observed == PollObservation::StillRunning {
                    PollAction::Continue
                } else {
                    PollAction::CloseSurface(held)
                },
            },
    {
        let gone = match observed {
            PollObservation::StillRunning => {
                return if self.slot.is_some() {
                    PollAction::Continue
                } else {
                    PollAction::Stop
                };
            },
            PollObservation::Exited(code) => code,
            PollObservation::Failed => None,
        };
        match self.handle_unexpected_exit(gone) {
            Some(child) => PollAction::CloseSurface(child),
            None => PollAction::Stop,
        }
    }

    /// The host asks for the surface to be dismissed.
    ///
    /// If the slot holds the child, the request takes it and commits the
    /// dismiss code, whatever the child does afterwards. The child is asked
    /// to stop with the graceful signal; if that fails it is handed out to be
    /// terminated at once. Otherwise nothing happens.
    pub fn on_close_request(&mut self) -> (action: DismissAction)
        requires
            old(self).wf(),
        ensures
            final(self).wf(),
            final(self)@ == old(self)@.step(Event::DismissRequested),
            match old(self)@.slot {
                None => action is Ignored,
                Some(held) => exists|signal: Result<(), ProcessError>|
                    {
                        &&& signal matches Err(e) ==> e is SignalFailed
                        &&& action == dismiss_plan(held, signal)
                    },
            },
    {
        match self.slot.take() {
            None => DismissAction::Ignored,
            Some(child) => {
                let reason = TerminationReason::HostDismissed;
                self.commit(reason.commit_code(FAILURE_EXIT_CODE), Some(reason));
                let signal = child.send_sigusr1();
                dismiss_action(child, signal)
            },
        }
    }
}

} // verus!
