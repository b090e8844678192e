//! Running a command under a deadline, as a state machine.
//!
//! Starting a process, waiting for it, killing it and collecting it are the
//! work of the operating system, and every one of them can fail. What is
//! decided here is the order of those operations and what each of their
//! outcomes means for the run. A driver holds the command and the process,
//! performs the [`Action`] that the [`RunState`] asks for, and reports what
//! came of it as an [`Event`]:
//!
//! ```text
//! NotStarted --> Spawned --> Completed
//!                   |
//!                   +--> TimedOutKilling --> Reaping --> Failed(TimedOut)
//! ```
//!
//! and from every state but the two final ones an error of the operating
//! system leads to `Failed`. A run never goes back to an earlier state, and
//! it is over after at most four events.

use crate::error::{context, IoErrorContext, RunError};
use std::time::Duration;
use vstd::prelude::*;

verus! {

/// An operation on the process that the driver has to perform.
#[derive(Debug, Clone, Copy, PartialEq, Eq)]
pub enum Action {
    /// Start the process.
    Spawn,
    /// Wait for the process to end, but no longer than the given time.
    WaitWithTimeout(Duration),
    /// Kill the process.
    Kill,
    /// Wait for the process to end, however long that takes.
    Wait,
}

/// What came of an [`Action`]. `S` is the exit status of a process, which is
/// handed through as it is.
#[derive(Debug)]
pub enum Event<S> {
    /// The process was started.
    Spawned,
    /// The process could not be started.
    SpawnFailed {
        /// The command, rendered as text.
        command: String,
        /// The error of the operating system.
        error: std::io::Error,
    },
    /// The process ended within the deadline, with this status.
    Exited(S),
    /// The deadline passed and the process had not ended.
    DeadlineElapsed,
    /// Waiting under the deadline failed.
    WaitWithTimeoutFailed(std::io::Error),
    /// The kill request was delivered.
    Killed,
    /// The kill request failed.
    KillFailed(std::io::Error),
    /// The killed process ended, with this status, and was collected.
    Reaped(S),
    /// Waiting for the killed process failed.
    WaitFailed(std::io::Error),
}

/// Where a run stands.
#[derive(Debug)]
pub enum RunState<S> {
    /// Nothing has happened yet.
    NotStarted {
        /// The longest time that the process may take.
        timeout: Duration,
    },
    /// The process runs.
    Spawned {
        /// The longest time that the process may take.
        timeout: Duration,
    },
    /// The process has outlived the deadline and is to be killed.
    TimedOutKilling,
    /// The kill request is out; the process is to be collected.
    Reaping,
    /// The process ended by itself within the deadline. Final.
    Completed(S),
    /// The run brought no exit status. Final. After a timeout the process has
    /// been killed and collected; after an error of the operating system it
    /// may still run, or wait to be collected.
    Failed(RunError),
}

impl<S> Event<S> {
    /// Whether this event is a possible outcome of `action`.
    pub open spec fn answers(self, action: Action) -> bool {
        match action {
            Action::Spawn => self is Spawned || self is SpawnFailed,
            Action::WaitWithTimeout(_) => self is Exited || self is DeadlineElapsed
                || self is WaitWithTimeoutFailed,
            Action::Kill => self is Killed || self is KillFailed,
            Action::Wait => self is Reaped || self is WaitFailed,
        }
    }
}

impl<S> RunState<S> {
    /// The state of a run of which nothing has happened yet.
    pub open spec fn initial(timeout: Duration) -> Self {
        RunState::NotStarted { timeout }
    }

    /// The operation that the run waits for: none once it is over.
    pub open spec fn pending(self) -> Option<Action> {
        match self {
            RunState::NotStarted { .. } => Some(Action::Spawn),
            RunState::Spawned { timeout } => Some(Action::WaitWithTimeout(timeout)),
            RunState::TimedOutKilling => Some(Action::Kill),
            RunState::Reaping => Some(Action::Wait),
            RunState::Completed(_) | RunState::Failed(_) => None,
        }
    }

    /// Whether the run is over.
    pub open spec fn is_final(self) -> bool {
        self is Completed || self is Failed
    }

    /// Whether `event` is an outcome of the operation that the run waits for.
    pub open spec fn accepts(self, event: Event<S>) -> bool {
        self.pending() matches Some(action) && event.answers(action)
    }

    /// What the run has brought: nothing while it goes on, then the exit
    /// status or the reason why there is none.
    pub open spec fn outcome(self) -> Option<Result<S, RunError>> {
        match self {
            RunState::Completed(status) => Some(Ok(status)),
            RunState::Failed(error) => Some(Err(error)),
            _ => None,
        }
    }

    /// The transition table: the state that follows `self` on `event`, and
    /// `None` where `event` is no outcome of the operation that `self` waits
    /// for.
    pub open spec fn spec_step(self, event: Event<S>) -> Option<Self> {
        match (self, event) {
            (RunState::NotStarted { timeout }, Event::Spawned) => Some(
                RunState::Spawned { timeout },
            ),
            (RunState::NotStarted { .. }, Event::SpawnFailed { command, error }) => Some(
                RunState::Failed(
                    RunError::Io { context: IoErrorContext::Command { command }, error },
                ),
            ),
            (RunState::Spawned { .. }, Event::Exited(status)) => Some(RunState::Completed(status)),
            (RunState::Spawned { .. }, Event::DeadlineElapsed) => Some(RunState::TimedOutKilling),
            (RunState::Spawned { .. }, Event::WaitWithTimeoutFailed(error)) => Some(
                RunState::Failed(RunError::Io { context: IoErrorContext::WaitWithTimeout, error }),
            ),
            (RunState::TimedOutKilling, Event::Killed) => Some(RunState::Reaping),
            (RunState::TimedOutKilling, Event::KillFailed(error)) => Some(
                RunState::Failed(RunError::Io { context: IoErrorContext::KillProcess, error }),
            ),
            (RunState::Reaping, Event::Reaped(_)) => Some(RunState::Failed(RunError::TimedOut)),
            (RunState::Reaping, Event::WaitFailed(error)) => Some(
                RunState::Failed(RunError::Io { context: IoErrorContext::WaitForProcess, error }),
            ),
            _ => None,
        }
    }

    /// Begins a run whose process may take at most `timeout`.
    pub fn new(timeout: Duration) -> (state: Self)
        ensures
            state == Self::initial(timeout),
    {
        RunState::NotStarted { timeout }
    }

    /// The operation that the driver has to perform next, or `None` once the
    /// run is over. The bounded wait is asked for with the timeout that the
    /// run began with.
    pub fn next_action(&self) -> (action: Option<Action>)
        ensures
            action == self.pending(),
            action is None <==> self.is_final(),
    {
        match self {
            RunState::NotStarted { .. } => Some(Action::Spawn),
            RunState::Spawned { timeout } => Some(Action::WaitWithTimeout(*timeout)),
            RunState::TimedOutKilling => Some(Action::Kill),
            RunState::Reaping => Some(Action::Wait),
            RunState::Completed(_) => None,
            RunState::Failed(_) => None,
        }
    }

    /// Takes in what came of the pending operation and gives the state that
    /// follows.
    ///
    /// An event that is no outcome of the pending operation is refused with
    /// `None`; a run that is over accepts no event. An error of the operating
    /// system ends the run at once, under the step at which it came: the
    /// process is not killed on that account. The status of a process that
    /// was killed after the deadline is dropped.
    pub fn step(self, event: Event<S>) -> (next: Option<Self>)
        ensures
            next == self.spec_step(event),
            next is Some <==> self.accepts(event),
    {
        match self {
            RunState::NotStarted { timeout } => match event {
                Event::Spawned => Some(RunState::Spawned { timeout }),
                Event::SpawnFailed { command, error } => {
                    let wrap = context(IoErrorContext::Command { command });
                    Some(RunState::Failed(wrap(error)))
                },
                _ => None,
            },
            RunState::Spawned { .. } => match event {
                Event::Exited(status) => Some(RunState::Completed(status)),
                Event::DeadlineElapsed => Some(RunState::TimedOutKilling),
                Event::WaitWithTimeoutFailed(error) => {
                    let wrap = context(IoErrorContext::WaitWithTimeout);
                    Some(RunState::Failed(wrap(error)))
                },
                _ => None,
            },
            RunState::TimedOutKilling => match event {
                Event::Killed => Some(RunState::Reaping),
                Event::KillFailed(error) => {
                    let wrap = context(IoErrorContext::KillProcess);
                    Some(RunState::Failed(wrap(error)))
                },
                _ => None,
            },
            RunState::Reaping => match event {
                Event::Reaped(_) => Some(RunState::Failed(RunError::TimedOut)),
                Event::WaitFailed(error) => {
                    let wrap = context(IoErrorContext::WaitForProcess);
                    Some(RunState::Failed(wrap(error)))
                },
                _ => None,
            },
            RunState::Completed(_) => None,
            RunState::Failed(_) => None,
        }
    }

    /// Ends the run: the exit status or the error once the run is over, and
    /// `None` while it goes on.
    pub fn into_result(self) -> (result: Option<Result<S, RunError>>)
        ensures
            result == self.outcome(),
            result is Some <==> self.is_final(),
    {
        match self {
            RunState::Completed(status) => Some(Ok(status)),
            RunState::Failed(error) => Some(Err(error)),
            _ => None,
        }
    }
}

} // verus!
