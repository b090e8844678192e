//! What can go wrong while a command runs under a deadline.

use vstd::prelude::*;

verus! {

/// An error of the operating system, as the standard library reports it. It
/// is carried along untouched, so nothing is stated about what it holds.
#[verifier::external_type_specification]
#[verifier::external_body]
pub struct ExIoError(std::io::Error);

/// The step of a run at which the operating system reported an error.
#[derive(Debug)]
pub enum IoErrorContext {
    /// The command could not be started.
    Command {
        /// The command, rendered as text.
        command: String,
    },
    /// Waiting for the process under the deadline failed.
    WaitWithTimeout,
    /// The process outlived the deadline and could not be killed.
    KillProcess,
    /// The process was killed after the deadline, and waiting for its end
    /// failed.
    WaitForProcess,
}

/// Why a run brought no exit status.
#[derive(Debug)]
pub enum RunError {
    /// The process outlived the deadline; it was killed and reaped.
    TimedOut,
    /// The operating system reported an error.
    Io {
        /// The step that failed.
        context: IoErrorContext,
        /// The error as the operating system gave it.
        error: std::io::Error,
    },
}

/// Returns the function that files an operating-system error under the given
/// step: called with `error`, it gives `RunError::Io` with that step as its
/// context and `error` as its error.
pub fn context(step: IoErrorContext) -> (wrap: impl FnOnce(std::io::Error) -> RunError)
    ensures
        forall|error: std::io::Error| wrap.requires((error,)),
        forall|error: std::io::Error, out: RunError|
            wrap.ensures((error,), out) ==> out == (RunError::Io { context: step, error }),
{
    move |error: std::io::Error| -> (out: RunError)
        ensures
            out == (RunError::Io { context: step, error }),
        { RunError::Io { context: step, error } }
}

} // verus!
