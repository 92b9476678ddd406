//! Reading the clipboard on its own, apart from any injection.

use vstd::prelude::*;
use vstd::string::*;
use crate::desktop::{Desktop, Faults};
use crate::error::{ErrorKind, Failure, FailureView};
use crate::fault::{ClipboardFault, ClipboardFaultView};

verus! {

/// What came of opening the clipboard and reading its text. Each read opens
/// the clipboard for itself and lets go of it at once.
#[derive(Debug, PartialEq, Eq)]
pub enum ReadAttempt {
    /// The clipboard could not be opened.
    OpenFailed(ClipboardFault),
    /// The clipboard was opened but gave no text.
    ReadFailed(ClipboardFault),
    /// The clipboard held this text.
    Text(String),
}

/// The mathematical value of a [`ReadAttempt`].
pub enum ReadAttemptView {
    OpenFailed(ClipboardFaultView),
    ReadFailed(ClipboardFaultView),
    Text(Seq<char>),
}

impl View for ReadAttempt {
    type V = ReadAttemptView;

    open spec fn view(&self) -> ReadAttemptView {
        match *self {
            ReadAttempt::OpenFailed(fault) => ReadAttemptView::OpenFailed(fault@),
            ReadAttempt::ReadFailed(fault) => ReadAttemptView::ReadFailed(fault@),
            ReadAttempt::Text(text) => ReadAttemptView::Text(text@),
        }
    }
}

impl ReadAttemptView {
    /// The text, or the step that failed with the backend's reason.
    pub open spec fn outcome(self) -> Result<Seq<char>, FailureView> {
        match self {
            ReadAttemptView::OpenFailed(fault) => Err(
                FailureView { kind: ErrorKind::ClipboardUnavailable, reason: fault.message() },
            ),
            ReadAttemptView::ReadFailed(fault) => Err(
                FailureView { kind: ErrorKind::ClipboardReadFailed, reason: fault.message() },
            ),
            ReadAttemptView::Text(text) => Ok(text),
        }
    }

    /// The text, or the reason alone.
    pub open spec fn reply(self) -> Result<Seq<char>, Seq<char>> {
        match self.outcome() {
            Ok(text) => Ok(text),
            Err(failure) => Err(failure.reason),
        }
    }
}

/// The view of what [`read`] returns.
pub open spec fn outcome_view(outcome: Result<String, Failure>) -> Result<Seq<char>, FailureView> {
    match outcome {
        Ok(text) => Ok(text@),
        Err(failure) => Err(failure@),
    }
}

/// The view of what [`get_clipboard_content`] returns.
pub open spec fn text_reply_view(reply: Result<String, String>) -> Result<Seq<char>, Seq<char>> {
    match reply {
        Ok(text) => Ok(text@),
        Err(reason) => Err(reason@),
    }
}

/// The clipboard's text, or the failure of the step that gave none.
pub fn read(attempt: ReadAttempt) -> (outcome: Result<String, Failure>)
    ensures
        outcome_view(outcome) == attempt@.outcome(),
{
    match attempt {
        ReadAttempt::OpenFailed(fault) => Err(
            Failure { kind: ErrorKind::ClipboardUnavailable, reason: fault.message() },
        ),
        ReadAttempt::ReadFailed(fault) => Err(
            Failure { kind: ErrorKind::ClipboardReadFailed, reason: fault.message() },
        ),
        ReadAttempt::Text(text) => Ok(text),
    }
}

/// The clipboard's text as the front end receives it: the text, or the
/// reason for which there is none.
pub fn get_clipboard_content(attempt: ReadAttempt) -> (reply: Result<String, String>)
    ensures
        text_reply_view(reply) == attempt@.reply(),
{
    match read(attempt) {
        Ok(text) => Ok(text),
        Err(failure) => Err(failure.into_message()),
    }
}

impl Desktop {
    /// What a caller that opens the clipboard and reads it finds.
    pub open spec fn read_attempt(self, faults: Faults) -> ReadAttemptView {
        match (faults.open, faults.read, self.clipboard) {
            (Some(fault), _, _) => ReadAttemptView::OpenFailed(fault),
            (None, Some(fault), _) => ReadAttemptView::ReadFailed(fault),
            (None, None, Some(text)) => ReadAttemptView::Text(text),
            (None, None, None) => ReadAttemptView::ReadFailed(
                ClipboardFaultView::ContentNotAvailable,
            ),
        }
    }
}

/// A read gives the text on the clipboard exactly where the clipboard can be
/// opened and read and holds a text. A clipboard without text is a failed
/// read, not an empty text.
pub proof fn law_read_gives_the_clipboard_text(desktop: Desktop, faults: Faults)
    ensures
        ({
            let outcome = desktop.read_attempt(faults).outcome();
            &&& outcome is Ok <==> faults.open is None && faults.read is None
                && desktop.clipboard is Some
            &&& outcome is Ok ==> Some(outcome->Ok_0) == desktop.clipboard
            &&& faults.open is Some ==> outcome == Err::<Seq<char>, FailureView>(
                FailureView {
                    kind: ErrorKind::ClipboardUnavailable,
                    reason: faults.open->0.message(),
                },
            )
            &&& faults.open is None && outcome is Err ==> outcome->Err_0.kind
                == ErrorKind::ClipboardReadFailed
        }),
{
}

} // verus!
