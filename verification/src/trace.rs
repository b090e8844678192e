//! Whole runs: the events of a run in order, and what holds of every run.

use crate::error::{IoErrorContext, RunError};
use crate::runner::{Action, Event, RunState};
use std::time::Duration;
use vstd::prelude::*;

verus! {

impl<S> RunState<S> {
    /// How far a run has come. Every step takes a run further.
    pub open spec fn progress(self) -> nat {
        match self {
            RunState::NotStarted { .. } => 0,
            RunState::Spawned { .. } => 1,
            RunState::TimedOutKilling => 2,
            RunState::Reaping => 3,
            RunState::Completed(_) | RunState::Failed(_) => 4,
        }
    }

    /// The runs that end in this state, written out: whether a run that began
    /// with `timeout` and received exactly `events` stands here.
    pub open spec fn reached_by(self, timeout: Duration, events: Seq<Event<S>>) -> bool {
        match self {
            RunState::NotStarted { timeout: limit } => limit == timeout && events.len() == 0,
            RunState::Spawned { timeout: limit } => limit == timeout && events == seq![
                Event::<S>::Spawned,
            ],
            RunState::TimedOutKilling => events == seq![
                Event::<S>::Spawned,
                Event::<S>::DeadlineElapsed,
            ],
            RunState::Reaping => events == seq![
                Event::<S>::Spawned,
                Event::<S>::DeadlineElapsed,
                Event::<S>::Killed,
            ],
            RunState::Completed(status) => events == seq![
                Event::<S>::Spawned,
                Event::<S>::Exited(status),
            ],
            RunState::Failed(RunError::TimedOut) => {
                &&& events.len() == 4
                &&& events[0] is Spawned
                &&& events[1] is DeadlineElapsed
                &&& events[2] is Killed
                &&& events[3] is Reaped
            },
            RunState::Failed(RunError::Io { context, error }) => match context {
                IoErrorContext::Command { command } => events == seq![
                    Event::<S>::SpawnFailed { command, error },
                ],
                IoErrorContext::WaitWithTimeout => events == seq![
                    Event::<S>::Spawned,
                    Event::<S>::WaitWithTimeoutFailed(error),
                ],
                IoErrorContext::KillProcess => events == seq![
                    Event::<S>::Spawned,
                    Event::<S>::DeadlineElapsed,
                    Event::<S>::KillFailed(error),
                ],
                IoErrorContext::WaitForProcess => events == seq![
                    Event::<S>::Spawned,
                    Event::<S>::DeadlineElapsed,
                    Event::<S>::Killed,
                    Event::<S>::WaitFailed(error),
                ],
            },
        }
    }
}

/// The state of a run that began with `timeout` and has since received
/// `events` in this order: `None` where one of them was refused.
pub open spec fn run<S>(timeout: Duration, events: Seq<Event<S>>) -> Option<RunState<S>>
    decreases events.len(),
{
    if events.len() == 0 {
        Some(RunState::initial(timeout))
    } else {
        match run(timeout, events.drop_last()) {
            Some(state) => state.spec_step(events.last()),
            None => None,
        }
    }
}

/// What a run that began with `timeout` and received `events` has brought:
/// `None` while it goes on and where an event was refused.
pub open spec fn result_of<S>(timeout: Duration, events: Seq<Event<S>>) -> Option<
    Result<S, RunError>,
> {
    match run(timeout, events) {
        Some(state) => state.outcome(),
        None => None,
    }
}

/// Whether a process was started in the course of `events`.
pub open spec fn started<S>(events: Seq<Event<S>>) -> bool {
    exists|i: int| 0 <= i < events.len() && events[i] is Spawned
}

/// Whether a wait collected the process in the course of `events`.
pub open spec fn collected<S>(events: Seq<Event<S>>) -> bool {
    exists|i: int| 0 <= i < events.len() && (events[i] is Exited || events[i] is Reaped)
}

/// An event is accepted exactly where it is an outcome of the operation that
/// the state waits for. A run that is over waits for none, so it accepts no
/// event: the final state is reached once.
pub proof fn lemma_step_accepts_answers<S>(state: RunState<S>, event: Event<S>)
    ensures
        state.spec_step(event) is Some <==> state.accepts(event),
        state.is_final() ==> state.spec_step(event) is None,
{
}

/// No transition goes back: every accepted event takes the run further.
pub proof fn lemma_step_advances<S>(state: RunState<S>, event: Event<S>)
    requires
        state.spec_step(event) is Some,
    ensures
        state.spec_step(event)->0.progress() > state.progress(),
{
}

/// A run has come at least as far as the number of its events, so it has at
/// most four of them, and with four it is over: no run hangs in the machine.
pub proof fn lemma_run_ends_within_four_events<S>(timeout: Duration, events: Seq<Event<S>>)
    requires
        run(timeout, events) is Some,
    ensures
        events.len() <= run(timeout, events)->0.progress() <= 4,
        events.len() == 4 ==> run(timeout, events)->0.is_final(),
    decreases events.len(),
{
    if events.len() > 0 {
        lemma_run_ends_within_four_events(timeout, events.drop_last());
        lemma_step_advances(run(timeout, events.drop_last())->0, events.last());
    }
}

/// A run stands only where `reached_by` says it can.
proof fn lemma_run_is_written_out<S>(timeout: Duration, events: Seq<Event<S>>)
    requires
        run(timeout, events) is Some,
    ensures
        run(timeout, events)->0.reached_by(timeout, events),
    decreases events.len(),
{
    if events.len() > 0 {
        let before = events.drop_last();
        let last = events.last();
        let earlier = run(timeout, before)->0;
        lemma_run_is_written_out(timeout, before);
        match earlier {
            RunState::NotStarted { .. } => {
                assert(events =~= seq![last]);
            },
            RunState::Spawned { .. } => {
                assert(events =~= seq![Event::<S>::Spawned, last]);
            },
            RunState::TimedOutKilling => {
                assert(events =~= seq![Event::<S>::Spawned, Event::<S>::DeadlineElapsed, last]);
            },
            RunState::Reaping => {
                assert(events =~= seq![
                    Event::<S>::Spawned,
                    Event::<S>::DeadlineElapsed,
                    Event::<S>::Killed,
                    last,
                ]);
            },
            _ => {},
        }
    }
}

/// The state from which a run that began with `timeout` comes to `state`;
/// of the first state, that state itself.
spec fn predecessor<S>(state: RunState<S>, timeout: Duration) -> RunState<S> {
    match state {
        RunState::NotStarted { .. } => state,
        RunState::Spawned { .. } => RunState::NotStarted { timeout },
        RunState::TimedOutKilling => RunState::Spawned { timeout },
        RunState::Reaping => RunState::TimedOutKilling,
        RunState::Completed(_) => RunState::Spawned { timeout },
        RunState::Failed(RunError::TimedOut) => RunState::Reaping,
        RunState::Failed(RunError::Io { context, .. }) => match context {
            IoErrorContext::Command { .. } => RunState::NotStarted { timeout },
            IoErrorContext::WaitWithTimeout => RunState::Spawned { timeout },
            IoErrorContext::KillProcess => RunState::TimedOutKilling,
            IoErrorContext::WaitForProcess => RunState::Reaping,
        },
    }
}

/// Every run that `reached_by` writes out is accepted and ends where it says.
proof fn lemma_written_out_is_run<S>(
    timeout: Duration,
    events: Seq<Event<S>>,
    state: RunState<S>,
)
    requires
        state.reached_by(timeout, events),
    ensures
        run(timeout, events) == Some(state),
    decreases events.len(),
{
    if events.len() > 0 {
        let before = events.drop_last();
        let earlier = predecessor(state, timeout);
        match earlier {
            RunState::Spawned { .. } => {
                assert(before =~= seq![Event::<S>::Spawned]);
            },
            RunState::TimedOutKilling => {
                assert(before =~= seq![Event::<S>::Spawned, Event::<S>::DeadlineElapsed]);
            },
            RunState::Reaping => {
                assert(before =~= seq![
                    Event::<S>::Spawned,
                    Event::<S>::DeadlineElapsed,
                    Event::<S>::Killed,
                ]);
            },
            _ => {},
        }
        lemma_written_out_is_run(timeout, before, earlier);
    }
}

/// The runs of the machine are the ten that `reached_by` writes out, one for
/// each place where a run can stand or end: a run that received `events`
/// stands at `state` exactly where `events` is the run written out for
/// `state`.
pub proof fn lemma_run_reaches<S>(timeout: Duration, events: Seq<Event<S>>, state: RunState<S>)
    ensures
        run(timeout, events) == Some(state) <==> state.reached_by(timeout, events),
{
    if run(timeout, events) == Some(state) {
        lemma_run_is_written_out(timeout, events);
    }
    if state.reached_by(timeout, events) {
        lemma_written_out_is_run(timeout, events, state);
    }
}

/// A run succeeds exactly where the process was started and ended by itself
/// within the deadline, and the status that it brings is the one that the
/// process ended with.
pub proof fn lemma_success_is_exit_in_time<S>(
    timeout: Duration,
    events: Seq<Event<S>>,
    status: S,
)
    ensures
        result_of(timeout, events) == Some(Ok::<S, RunError>(status)) <==> events == seq![
            Event::<S>::Spawned,
            Event::<S>::Exited(status),
        ],
{
    lemma_run_reaches(timeout, events, RunState::Completed(status));
}

/// A run ends as timed out exactly where the process was started, outlived
/// the deadline, was killed, and was then collected.
pub proof fn lemma_timed_out_is_killed_and_reaped<S>(timeout: Duration, events: Seq<Event<S>>)
    ensures
        result_of(timeout, events) == Some(Err::<S, RunError>(RunError::TimedOut)) <==> {
            &&& events.len() == 4
            &&& events[0] is Spawned
            &&& events[1] is DeadlineElapsed
            &&& events[2] is Killed
            &&& events[3] is Reaped
        },
{
    lemma_run_reaches(timeout, events, RunState::Failed(RunError::TimedOut));
}

/// A run ends with an error of the operating system under the step at which
/// the error came, with the error as it came: under `Command`, with the
/// command's text, where the process could not be started; under
/// `WaitWithTimeout` where the bounded wait failed; under `KillProcess` where
/// the process outlived the deadline and could not be killed; under
/// `WaitForProcess` where it was killed and could not be collected.
pub proof fn lemma_io_error_names_its_step<S>(
    timeout: Duration,
    events: Seq<Event<S>>,
    context: IoErrorContext,
    error: std::io::Error,
)
    ensures
        result_of(timeout, events) == Some(Err::<S, RunError>(RunError::Io { context, error }))
            <==> match context {
            IoErrorContext::Command { command } => events == seq![
                Event::<S>::SpawnFailed { command, error },
            ],
            IoErrorContext::WaitWithTimeout => events == seq![
                Event::<S>::Spawned,
                Event::<S>::WaitWithTimeoutFailed(error),
            ],
            IoErrorContext::KillProcess => events == seq![
                Event::<S>::Spawned,
                Event::<S>::DeadlineElapsed,
                Event::<S>::KillFailed(error),
            ],
            IoErrorContext::WaitForProcess => events == seq![
                Event::<S>::Spawned,
                Event::<S>::DeadlineElapsed,
                Event::<S>::Killed,
                Event::<S>::WaitFailed(error),
            ],
        },
{
    lemma_run_reaches(timeout, events, RunState::Failed(RunError::Io { context, error }));
}

/// No run is over while a process that it started is still to be collected,
/// unless the operating system failed at the wait or at the kill: success and
/// timeout come only after a wait has collected the process, and where the
/// command could not be started there is no process.
pub proof fn lemma_no_child_left_behind<S>(timeout: Duration, events: Seq<Event<S>>)
    requires
        run(timeout, events) is Some,
        run(timeout, events)->0.is_final(),
    ensures
        started(events) && !collected(events) ==> (run(timeout, events)->0 matches RunState::Failed(
            RunError::Io { context, .. },
        ) && context !is Command),
        result_of(timeout, events) matches Some(Ok(_)) ==> started(events) && collected(events),
        result_of(timeout, events) matches Some(Err(RunError::TimedOut)) ==> started(events)
            && collected(events),
        result_of(timeout, events) matches Some(
            Err(RunError::Io { context: IoErrorContext::Command { .. }, .. }),
        ) ==> !started(events),
{
    lemma_run_reaches(timeout, events, run(timeout, events)->0);
}

/// No operation is tried again: of the events of a run, no two are outcomes
/// of the same operation. So the process is started once, and killed at most
/// once.
pub proof fn lemma_no_operation_is_repeated<S>(
    timeout: Duration,
    events: Seq<Event<S>>,
    i: int,
    j: int,
    action: Action,
)
    requires
        run(timeout, events) is Some,
        0 <= i < j < events.len(),
        events[i].answers(action),
    ensures
        !events[j].answers(action),
{
    lemma_run_reaches(timeout, events, run(timeout, events)->0);
}

/// The process is killed for one reason only: the kill is tried only directly
/// after the deadline has passed with the process still running.
pub proof fn lemma_kill_follows_the_deadline<S>(timeout: Duration, events: Seq<Event<S>>, i: int)
    requires
        run(timeout, events) is Some,
        0 <= i < events.len(),
        events[i].answers(Action::Kill),
    ensures
        i > 0,
        events[i - 1] is DeadlineElapsed,
{
    lemma_run_reaches(timeout, events, run(timeout, events)->0);
}

/// What a run brings depends on its own events and on nothing else: two runs
/// that receive the same events in the same order, under the same timeout,
/// come to stand at the same state and bring the same result.
pub proof fn lemma_same_events_same_outcome<S>(
    timeout: Duration,
    first: Seq<Event<S>>,
    second: Seq<Event<S>>,
)
    requires
        first.len() == second.len(),
        forall|i: int| 0 <= i < first.len() ==> first[i] == second[i],
    ensures
        run(timeout, first) == run(timeout, second),
        result_of(timeout, first) == result_of(timeout, second),
{
    assert(first =~= second);
}

} // verus!
