//! The text injection pipeline: hide the surface, let the focus settle, swap
//! the text onto the clipboard, strike the paste chord, put the old clipboard
//! text back.
//!
//! The pipeline is a state machine. It names one request at a time; the
//! caller carries the request out against the desktop and reports what came
//! of it, and the machine answers with the next request. It ends with
//! [`Request::Finish`], which holds the result of the injection.

use vstd::prelude::*;
use vstd::string::*;
use crate::error::{result_view, ErrorKind, Failure, FailureView};
use crate::fault::{ClipboardFault, ClipboardFaultView, EmitterFault, EmitterFaultView};
use crate::keys::{chord, Direction, Key, KeyStroke, Platform, PASTE_LETTER};
use crate::surface::{hide_surface, plan_for, Visibility, WindowOp};

verus! {

/// How long the focus is given to return to the application that had it,
/// after the surface was asked to hide and before anything is pasted. Found
/// by trial: with less, the chord may reach the surface while it still hides.
pub const SETTLE_MILLIS: u64 = 150;

/// How long the application is given to take the paste before the clipboard
/// changes again. Found by trial, like the settle delay.
pub const RESTORE_MILLIS: u64 = 100;

/// What the pipeline is waiting for.
#[derive(Clone, Copy, Debug, PartialEq, Eq, Structural)]
pub enum Stage {
    /// The surface was asked to hide.
    Hiding,
    /// The settle delay is running.
    Settling,
    OpeningClipboard,
    ReadingClipboard,
    WritingClipboard,
    AcquiringEmitter,
    /// The modifier was sent down.
    Pressing,
    /// The letter was clicked.
    Clicking,
    /// The modifier was sent up.
    Releasing,
    /// The restore delay is running.
    AwaitingPaste,
    /// The old clipboard text was sent back.
    Restoring,
    Finished,
}

/// What the caller is to do next.
#[derive(Debug, PartialEq, Eq)]
pub enum Request {
    /// Make these requests to the window system, whatever comes of them.
    Surface { ops: Vec<WindowOp> },
    /// Block for this long.
    Wait { millis: u64 },
    /// Open the system clipboard.
    OpenClipboard,
    /// Read the clipboard's text.
    ReadClipboard,
    /// Put the text to inject on the clipboard.
    WriteClipboard { text: String },
    /// Set up the input emitter.
    AcquireEmitter,
    /// Emit this key event, whatever comes of it.
    SendKey { stroke: KeyStroke },
    /// Put the old text back on the clipboard, whatever comes of it.
    RestoreClipboard { text: String },
    /// Nothing more: the injection has ended with this result.
    Finish { result: Result<(), Failure> },
}

/// The mathematical value of a [`Request`].
pub enum RequestView {
    Surface { ops: Seq<WindowOp> },
    Wait { millis: u64 },
    OpenClipboard,
    ReadClipboard,
    WriteClipboard { text: Seq<char> },
    AcquireEmitter,
    SendKey { stroke: KeyStroke },
    RestoreClipboard { text: Seq<char> },
    Finish { result: Result<(), FailureView> },
}

impl View for Request {
    type V = RequestView;

    open spec fn view(&self) -> RequestView {
        match *self {
            Request::Surface { ops } => RequestView::Surface { ops: ops@ },
            Request::Wait { millis } => RequestView::Wait { millis },
            Request::OpenClipboard => RequestView::OpenClipboard,
            Request::ReadClipboard => RequestView::ReadClipboard,
            Request::WriteClipboard { text } => RequestView::WriteClipboard { text: text@ },
            Request::AcquireEmitter => RequestView::AcquireEmitter,
            Request::SendKey { stroke } => RequestView::SendKey { stroke },
            Request::RestoreClipboard { text } => RequestView::RestoreClipboard { text: text@ },
            Request::Finish { result } => RequestView::Finish { result: result_view(result) },
        }
    }
}

/// What came of the last request.
#[derive(Debug, PartialEq, Eq)]
pub enum Response {
    /// It was carried out, or it was one whose outcome does not matter.
    Done,
    /// The clipboard was read and held this text.
    Text(String),
    /// The clipboard backend failed.
    ClipboardFailed(ClipboardFault),
    /// The input emitter could not be set up.
    EmitterFailed(EmitterFault),
}

/// The mathematical value of a [`Response`].
pub enum ResponseView {
    Done,
    Text(Seq<char>),
    ClipboardFailed(ClipboardFaultView),
    EmitterFailed(EmitterFaultView),
}

impl View for Response {
    type V = ResponseView;

    open spec fn view(&self) -> ResponseView {
        match *self {
            Response::Done => ResponseView::Done,
            Response::Text(text) => ResponseView::Text(text@),
            Response::ClipboardFailed(fault) => ResponseView::ClipboardFailed(fault@),
            Response::EmitterFailed(fault) => ResponseView::EmitterFailed(fault@),
        }
    }
}

impl ResponseView {
    /// The reason given with a failure, and `None` where nothing failed.
    pub open spec fn fault_message(self) -> Option<Seq<char>> {
        match self {
            ResponseView::ClipboardFailed(fault) => Some(fault.message()),
            ResponseView::EmitterFailed(fault) => Some(fault.message()),
            _ => None,
        }
    }

    /// The text that was read, and `None` where the response holds none.
    pub open spec fn text(self) -> Option<Seq<char>> {
        match self {
            ResponseView::Text(text) => Some(text),
            _ => None,
        }
    }
}

/// One injection under way.
#[derive(Debug)]
pub struct Injection {
    stage: Stage,
    text: String,
    platform: Platform,
    snapshot: Option<String>,
    failure: Option<Failure>,
}

/// The mathematical value of an [`Injection`].
pub struct InjectionView {
    pub stage: Stage,
    /// The text to deliver.
    pub text: Seq<char>,
    pub platform: Platform,
    /// The text the clipboard held before the injection, once it was read.
    pub snapshot: Option<Seq<char>>,
    /// Why the injection failed, if it did.
    pub failure: Option<FailureView>,
}

impl View for Injection {
    type V = InjectionView;

    closed spec fn view(&self) -> InjectionView {
        InjectionView {
            stage: self.stage,
            text: self.text@,
            platform: self.platform,
            snapshot: match self.snapshot {
                Some(text) => Some(text@),
                None => None,
            },
            failure: match self.failure {
                Some(failure) => Some(failure@),
                None => None,
            },
        }
    }
}

/// The result of an injection that ended with `failure`, or without one.
pub open spec fn outcome(failure: Option<FailureView>) -> Result<(), FailureView> {
    match failure {
        Some(failure) => Err(failure),
        None => Ok(()),
    }
}

impl InjectionView {
    /// The state in which an injection of `text` starts.
    pub open spec fn initial(text: Seq<char>, platform: Platform) -> InjectionView {
        InjectionView { stage: Stage::Hiding, text, platform, snapshot: None, failure: None }
    }

    /// The same injection at another stage.
    pub open spec fn at(self, stage: Stage) -> InjectionView {
        InjectionView { stage, ..self }
    }

    /// The end of the injection and the request that tells of it.
    pub open spec fn finish(self, failure: Option<FailureView>) -> (InjectionView, RequestView) {
        (
            InjectionView { stage: Stage::Finished, failure, ..self },
            RequestView::Finish { result: outcome(failure) },
        )
    }

    /// The step after one that must succeed: on a failure the injection ends
    /// with an error of `kind` and the reason given, else it goes on to
    /// `stage` with `request`.
    pub open spec fn unless_failed(
        self,
        response: ResponseView,
        kind: ErrorKind,
        stage: Stage,
        request: RequestView,
    ) -> (InjectionView, RequestView) {
        match response.fault_message() {
            Some(reason) => self.finish(Some(FailureView { kind, reason })),
            None => (self.at(stage), request),
        }
    }

    /// The machine: the state that follows on `response` and the request
    /// made next.
    ///
    /// Hiding and restoring are best effort, and what the emitter says of a
    /// key event is not looked at: whatever the response, the pipeline goes
    /// on. Opening the clipboard, writing the text and setting up the emitter
    /// must succeed: a failure ends the injection, and nothing that was done
    /// before is taken back. A clipboard that could not be read, or held no
    /// text, leaves no snapshot and so nothing to restore.
    pub open spec fn step(self, response: ResponseView) -> (InjectionView, RequestView) {
        let strokes = chord(self.platform.modifier());
        match self.stage {
            Stage::Hiding => (
                self.at(Stage::Settling),
                RequestView::Wait { millis: SETTLE_MILLIS },
            ),
            Stage::Settling => (self.at(Stage::OpeningClipboard), RequestView::OpenClipboard),
            Stage::OpeningClipboard => self.unless_failed(
                response,
                ErrorKind::ClipboardUnavailable,
                Stage::ReadingClipboard,
                RequestView::ReadClipboard,
            ),
            Stage::ReadingClipboard => (
                InjectionView {
                    stage: Stage::WritingClipboard,
                    snapshot: response.text(),
                    ..self
                },
                RequestView::WriteClipboard { text: self.text },
            ),
            Stage::WritingClipboard => self.unless_failed(
                response,
                ErrorKind::ClipboardWriteFailed,
                Stage::AcquiringEmitter,
                RequestView::AcquireEmitter,
            ),
            Stage::AcquiringEmitter => self.unless_failed(
                response,
                ErrorKind::InputEmitterUnavailable,
                Stage::Pressing,
                RequestView::SendKey { stroke: strokes[0] },
            ),
            Stage::Pressing => (
                self.at(Stage::Clicking),
                RequestView::SendKey { stroke: strokes[1] },
            ),
            Stage::Clicking => (
                self.at(Stage::Releasing),
                RequestView::SendKey { stroke: strokes[2] },
            ),
            Stage::Releasing => match self.snapshot {
                Some(_) => (
                    self.at(Stage::AwaitingPaste),
                    RequestView::Wait { millis: RESTORE_MILLIS },
                ),
                None => self.finish(None),
            },
            Stage::AwaitingPaste => match self.snapshot {
                Some(previous) => (
                    self.at(Stage::Restoring),
                    RequestView::RestoreClipboard { text: previous },
                ),
                None => self.finish(None),
            },
            Stage::Restoring => self.finish(None),
            Stage::Finished => self.finish(self.failure),
        }
    }
}

impl Injection {
    /// Starts the injection of `text` on `platform`: the first request is to
    /// hide the surface, so that the application behind it gets the input.
    pub fn begin(text: String, platform: Platform) -> (start: (Injection, Request))
        ensures
            start.0@ == InjectionView::initial(text@, platform),
            start.1@ == (RequestView::Surface { ops: plan_for(Visibility::Hidden) }),
    {
        let injection = Injection {
            stage: Stage::Hiding,
            text,
            platform,
            snapshot: None,
            failure: None,
        };
        (injection, Request::Surface { ops: hide_surface() })
    }

    /// What the injection is waiting for.
    pub fn stage(&self) -> (stage: Stage)
        ensures
            stage == self@.stage,
    {
        self.stage
    }

    /// Whether the injection has ended.
    pub fn is_finished(&self) -> (finished: bool)
        ensures
            finished == (self@.stage == Stage::Finished),
    {
        match self.stage {
            Stage::Finished => true,
            _ => false,
        }
    }

    fn finish(self, failure: Option<Failure>) -> (next: (Injection, Request))
        ensures
            (next.0@, next.1@) == self@.finish(
                match failure {
                    Some(failure) => Some(failure@),
                    None => None,
                },
            ),
    {
        let result = match &failure {
            Some(failure) => Err(failure.clone()),
            None => Ok(()),
        };
        let Injection { stage: _, text, platform, snapshot, failure: _ } = self;
        (
            Injection { stage: Stage::Finished, text, platform, snapshot, failure },
            Request::Finish { result },
        )
    }

    fn at(self, stage: Stage) -> (next: Injection)
        ensures
            next@ == self@.at(stage),
    {
        let Injection { stage: _, text, platform, snapshot, failure } = self;
        Injection { stage, text, platform, snapshot, failure }
    }

    fn unless_failed(
        self,
        response: Response,
        kind: ErrorKind,
        stage: Stage,
        request: Request,
    ) -> (next: (Injection, Request))
        ensures
            (next.0@, next.1@) == self@.unless_failed(response@, kind, stage, request@),
    {
        match response {
            Response::ClipboardFailed(fault) => {
                let reason = fault.message();
                self.finish(Some(Failure { kind, reason }))
            },
            Response::EmitterFailed(fault) => {
                let reason = fault.message();
                self.finish(Some(Failure { kind, reason }))
            },
            _ => (self.at(stage), request),
        }
    }

    /// Takes what came of the last request and names the next one.
    pub fn advance(self, response: Response) -> (next: (Injection, Request))
        ensures
            (next.0@, next.1@) == self@.step(response@),
    {
        let modifier = self.platform.paste_modifier();
        match self.stage {
            Stage::Hiding => (self.at(Stage::Settling), Request::Wait { millis: SETTLE_MILLIS }),
            Stage::Settling => (self.at(Stage::OpeningClipboard), Request::OpenClipboard),
            Stage::OpeningClipboard => self.unless_failed(
                response,
                ErrorKind::ClipboardUnavailable,
                Stage::ReadingClipboard,
                Request::ReadClipboard,
            ),
            Stage::ReadingClipboard => {
                let Injection { stage: _, text, platform, snapshot: _, failure } = self;
                let snapshot = match response {
                    Response::Text(previous) => Some(previous),
                    _ => None,
                };
                let payload = text.clone();
                (
                    Injection { stage: Stage::WritingClipboard, text, platform, snapshot, failure },
                    Request::WriteClipboard { text: payload },
                )
            },
            Stage::WritingClipboard => self.unless_failed(
                response,
                ErrorKind::ClipboardWriteFailed,
                Stage::AcquiringEmitter,
                Request::AcquireEmitter,
            ),
            Stage::AcquiringEmitter => self.unless_failed(
                response,
                ErrorKind::InputEmitterUnavailable,
                Stage::Pressing,
                Request::SendKey { stroke: KeyStroke { key: modifier, direction: Direction::Press } },
            ),
            Stage::Pressing => (
                self.at(Stage::Clicking),
                Request::SendKey {
                    stroke: KeyStroke { key: Key::Unicode(PASTE_LETTER), direction: Direction::Click },
                },
            ),
            Stage::Clicking => (
                self.at(Stage::Releasing),
                Request::SendKey {
                    stroke: KeyStroke { key: modifier, direction: Direction::Release },
                },
            ),
            Stage::Releasing => match &self.snapshot {
                Some(_) => (
                    self.at(Stage::AwaitingPaste),
                    Request::Wait { millis: RESTORE_MILLIS },
                ),
                None => self.finish(None),
            },
            Stage::AwaitingPaste => match &self.snapshot {
                Some(previous) => {
                    let text = previous.clone();
                    (self.at(Stage::Restoring), Request::RestoreClipboard { text })
                },
                None => self.finish(None),
            },
            Stage::Restoring => self.finish(None),
            Stage::Finished => {
                let failure = match &self.failure {
                    Some(failure) => Some(failure.clone()),
                    None => None,
                };
                self.finish(failure)
            },
        }
    }
}

} // verus!
