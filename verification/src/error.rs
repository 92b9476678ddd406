//! The hard failures of the core: which step failed, and the reason in words.

use vstd::prelude::*;
use vstd::string::*;

verus! {

/// The step that failed.
#[derive(Clone, Copy, Debug, PartialEq, Eq, Structural)]
pub enum ErrorKind {
    /// The system clipboard could not be opened.
    ClipboardUnavailable,
    /// The clipboard was opened but its text could not be read.
    ClipboardReadFailed,
    /// The clipboard was opened but the text could not be placed on it.
    ClipboardWriteFailed,
    /// The input emitter could not be set up.
    InputEmitterUnavailable,
    /// The global hotkey could not be registered. The program goes on
    /// without it.
    HotkeyRegistrationFailed,
}

/// A hard failure, as handed to the caller.
#[derive(Debug, PartialEq, Eq)]
pub struct Failure {
    pub kind: ErrorKind,
    pub reason: String,
}

/// The mathematical value of a [`Failure`].
pub struct FailureView {
    pub kind: ErrorKind,
    pub reason: Seq<char>,
}

impl View for Failure {
    type V = FailureView;

    open spec fn view(&self) -> FailureView {
        FailureView { kind: self.kind, reason: self.reason@ }
    }
}

impl Clone for Failure {
    fn clone(&self) -> (copy: Failure)
        ensures
            copy@ == self@,
    {
        Failure { kind: self.kind, reason: self.reason.clone() }
    }
}

impl Failure {
    /// The failure as the front end receives it: the reason alone.
    pub fn into_message(self) -> (text: String)
        ensures
            text@ == self@.reason,
    {
        self.reason
    }
}

/// The view of the result of an operation that returns nothing.
pub open spec fn result_view(result: Result<(), Failure>) -> Result<(), FailureView> {
    match result {
        Ok(done) => Ok(done),
        Err(failure) => Err(failure@),
    }
}

/// The view of a result as the front end receives it.
pub open spec fn reply_view(reply: Result<(), String>) -> Result<(), Seq<char>> {
    match reply {
        Ok(done) => Ok(done),
        Err(reason) => Err(reason@),
    }
}

/// A result with, of a failure, the reason alone.
pub open spec fn reason_only(result: Result<(), FailureView>) -> Result<(), Seq<char>> {
    match result {
        Ok(done) => Ok(done),
        Err(failure) => Err(failure.reason),
    }
}

/// The result as the front end receives it: of a failure, the reason alone.
pub fn reply(result: Result<(), Failure>) -> (reply: Result<(), String>)
    ensures
        reply_view(reply) == reason_only(result_view(result)),
{
    match result {
        Ok(done) => Ok(done),
        Err(failure) => Err(failure.into_message()),
    }
}

} // verus!
