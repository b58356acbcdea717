//! What holds of every run of the coordinator, whatever happens in whatever
//! order. Each statement is proved over the transition function that the
//! coordinator's methods are specified by.

use vstd::prelude::*;
use crate::process::{ChildProcess, ProcessError};
use crate::supervisor::{
    cancel_plan,
    dismiss_plan,
    status_exit_code,
    DismissAction,
    Event,
    Phase,
    PollObservation,
    SupervisorState,
    TerminationReason,
    WaitOutcome,
    FAILURE_EXIT_CODE,
};

verus! {

/// Whether `event` is one of the three triggers that compete for the child:
/// the cancel gesture, a tick of the poller, the host's dismiss request.
pub open spec fn is_trigger(event: Event) -> bool {
    event is CancelGesture || event is PollTick || event is DismissRequested
}

/// The number of takes that a run in this state still has before it.
pub open spec fn takes_left(s: SupervisorState) -> nat {
    if s.phase == Phase::Starting || s.phase == Phase::Running {
        1
    } else {
        0
    }
}

/// Every event leads from a reachable state to a reachable state.
pub proof fn law_step_keeps_state_valid(s: SupervisorState, event: Event)
    requires
        s.wf(),
    ensures
        s.step(event).wf(),
{
}

/// Every sequence of events leads from a reachable state to a reachable
/// state.
pub proof fn law_run_keeps_state_valid(s: SupervisorState, events: Seq<Event>)
    requires
        s.wf(),
    ensures
        s.run(events).wf(),
    decreases events.len(),
{
    if events.len() > 0 {
        law_step_keeps_state_valid(s, events[0]);
        law_run_keeps_state_valid(s.step(events[0]), events.skip(1));
    }
}

/// At most one event of a run takes the handle out of the slot.
pub proof fn law_at_most_one_take(s: SupervisorState, events: Seq<Event>)
    requires
        s.wf(),
    ensures
        s.take_count(events) <= takes_left(s),
    decreases events.len(),
{
    if events.len() > 0 {
        law_at_most_one_take(s.step(events[0]), events.skip(1));
    }
}

/// Once the child is in the slot, a run that ends with the slot empty holds
/// exactly one event that took the handle; while the slot is occupied, none
/// has.
pub proof fn law_exactly_one_take(s: SupervisorState, events: Seq<Event>)
    requires
        s.wf(),
        s.slot is Some,
    ensures
        s.run(events).slot is None ==> s.take_count(events) == 1,
        s.run(events).slot is Some ==> s.take_count(events) == 0,
    decreases events.len(),
{
    if events.len() > 0 {
        let next = s.step(events[0]);
        if next.slot is Some {
            law_exactly_one_take(next, events.skip(1));
        } else {
            law_at_most_one_take(next, events.skip(1));
            law_slot_stays_empty(next, events.skip(1));
        }
    }
}

/// Once a trigger has taken the handle, the slot stays empty for the rest of
/// the run.
pub proof fn law_slot_stays_empty(s: SupervisorState, events: Seq<Event>)
    requires
        s.wf(),
        s.phase == Phase::ShuttingDown || s.phase == Phase::Terminated,
    ensures
        s.run(events).slot is None,
        s.run(events).phase == Phase::ShuttingDown || s.run(events).phase == Phase::Terminated,
    decreases events.len(),
{
    if events.len() > 0 {
        law_slot_stays_empty(s.step(events[0]), events.skip(1));
    }
}

/// A trigger that finds the slot empty changes nothing: it takes no handle
/// and writes no exit code.
pub proof fn law_losing_trigger_is_no_op(s: SupervisorState, event: Event)
    requires
        s.wf(),
        s.slot is None,
        is_trigger(event),
    ensures
        s.step(event) == s,
        !s.takes(event),
{
}

/// A trigger that finds the child in the slot takes it, unless it is a tick
/// of the poller that saw the child still running.
pub proof fn law_winning_trigger_takes(s: SupervisorState, event: Event)
    requires
        s.wf(),
        s.slot is Some,
        is_trigger(event),
        event != Event::PollTick(PollObservation::StillRunning),
    ensures
        s.takes(event),
        s.step(event).slot is None,
{
}

/// The exit code cell is written at most once in a run, and exactly once in
/// a run that has terminated.
pub proof fn law_exit_code_written_once(events: Seq<Event>)
    ensures
        SupervisorState::initial().run(events).writes <= 1,
        SupervisorState::initial().run(events).phase == Phase::Terminated
            <==> SupervisorState::initial().run(events).writes == 1,
        SupervisorState::initial().run(events).phase != Phase::Terminated
            ==> SupervisorState::initial().run(events).exit_code == 0,
{
    law_run_keeps_state_valid(SupervisorState::initial(), events);
}

/// Each event writes the exit code cell at most once, and only an event
/// that ends the run writes it.
pub proof fn law_only_termination_writes(s: SupervisorState, event: Event)
    requires
        s.wf(),
    ensures
        s.step(event).writes == s.writes || s.step(event).writes == s.writes + 1,
        s.step(event).writes == s.writes + 1 <==> s.phase != Phase::Terminated && s.step(
            event,
        ).phase == Phase::Terminated,
        s.step(event).writes == s.writes ==> s.step(event).exit_code == s.exit_code,
{
}

/// A terminated run is final: no event changes its state, so its exit code
/// is never written again.
pub proof fn law_terminated_is_final(s: SupervisorState, events: Seq<Event>)
    requires
        s.wf(),
        s.phase == Phase::Terminated,
    ensures
        s.run(events) == s,
    decreases events.len(),
{
    if events.len() > 0 {
        law_terminated_is_final(s.step(events[0]), events.skip(1));
    }
}

/// Whichever trigger takes the handle, the run terminates with one write to
/// the exit code cell: at once for the poller and the host, and with the end
/// of the wait for the cancel gesture.
pub proof fn law_every_trigger_writes_once(
    s: SupervisorState,
    event: Event,
    waited: WaitOutcome,
    later: Seq<Event>,
)
    requires
        s.wf(),
        s.slot is Some,
        s.takes(event),
    ensures
        event is CancelGesture ==> s.step(event).writes == 0 && s.step(event).step(
            Event::WaitCompleted(waited),
        ).run(later).writes == 1,
        !(event is CancelGesture) ==> s.step(event).run(later).writes == 1,
{
    if event is CancelGesture {
        law_terminated_is_final(s.step(event).step(Event::WaitCompleted(waited)), later);
    } else {
        law_terminated_is_final(s.step(event), later);
    }
}

/// A dismiss request that finds the child in the slot ends the run with exit
/// code 130, whatever is reported of the child afterwards.
pub proof fn law_host_dismiss_yields_130(s: SupervisorState, later: Seq<Event>)
    requires
        s.wf(),
        s.slot is Some,
    ensures
        s.step(Event::DismissRequested).run(later).exit_code == 130,
        s.step(Event::DismissRequested).run(later).reason == Some(
            TerminationReason::HostDismissed,
        ),
{
    law_terminated_is_final(s.step(Event::DismissRequested), later);
}

/// A child that exits on its own with `code`, before any other trigger has
/// taken it, ends the run with that code, whatever happens afterwards.
pub proof fn law_unexpected_exit_yields_child_code(
    s: SupervisorState,
    code: i32,
    later: Seq<Event>,
)
    requires
        s.wf(),
        s.slot is Some,
    ensures
        s.step(Event::PollTick(PollObservation::Exited(Some(code)))).run(later).exit_code == code,
        s.step(Event::PollTick(PollObservation::Exited(Some(code)))).run(later).reason == Some(
            TerminationReason::ChildExitedUnexpectedly,
        ),
{
    law_terminated_is_final(s.step(Event::PollTick(PollObservation::Exited(Some(code)))), later);
}

/// A look at the child that fails, or that finds it gone without a code,
/// ends the run with the failure code.
pub proof fn law_failed_poll_yields_failure_code(s: SupervisorState, later: Seq<Event>)
    requires
        s.wf(),
        s.slot is Some,
    ensures
        s.step(Event::PollTick(PollObservation::Failed)).run(later).exit_code == 1,
        s.step(Event::PollTick(PollObservation::Exited(None))).run(later).exit_code == 1,
{
    law_terminated_is_final(s.step(Event::PollTick(PollObservation::Failed)), later);
    law_terminated_is_final(s.step(Event::PollTick(PollObservation::Exited(None))), later);
}

/// A cancel gesture whose graceful signal could not be delivered still hands
/// the child out to be waited for, and the run ends with what the wait
/// reports: the child's code, or the failure code where there is none.
pub proof fn law_failed_signal_still_waits(
    s: SupervisorState,
    child: ChildProcess,
    signal: Result<(), ProcessError>,
    waited: WaitOutcome,
    later: Seq<Event>,
)
    requires
        s.wf(),
        s.slot == Some(child),
    ensures
        cancel_plan(child, signal) is AwaitExit,
        cancel_plan(child, signal)->child == child,
        s.step(Event::CancelGesture).phase == Phase::ShuttingDown,
        waited matches WaitOutcome::Exited(code) ==> s.step(Event::CancelGesture).step(
            Event::WaitCompleted(waited),
        ).run(later).exit_code == status_exit_code(code),
        !(waited is Exited) ==> s.step(Event::CancelGesture).step(
            Event::WaitCompleted(waited),
        ).run(later).exit_code == FAILURE_EXIT_CODE,
{
    law_terminated_is_final(
        s.step(Event::CancelGesture).step(Event::WaitCompleted(waited)),
        later,
    );
}

/// Only a failed graceful signal on the dismiss path leads to a forced
/// termination, and the dismissed child is the one handed out.
pub proof fn law_force_kill_only_after_failed_signal(
    child: ChildProcess,
    signal: Result<(), ProcessError>,
)
    ensures
        dismiss_plan(child, signal) is ForceKill <==> signal is Err,
        dismiss_plan(child, signal) is Release <==> signal is Ok,
        dismiss_plan(child, signal) matches DismissAction::ForceKill { child: c, .. } ==> c
            == child,
        dismiss_plan(child, signal) matches DismissAction::Release(c) ==> c == child,
{
}

/// A second dismiss request in succession changes nothing: it takes no
/// handle and leaves the exit code and the number of its writes as the first
/// request left them.
pub proof fn law_dismiss_is_idempotent(s: SupervisorState)
    requires
        s.wf(),
    ensures
        s.step(Event::DismissRequested).step(Event::DismissRequested) == s.step(
            Event::DismissRequested,
        ),
        s.step(Event::DismissRequested).slot is None,
        !s.step(Event::DismissRequested).takes(Event::DismissRequested),
{
}

} // verus!
