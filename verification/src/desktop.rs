//! A model of the desktop, and an injection run against it.
//!
//! The model holds what the pipeline can change or depends on: the surface,
//! the text on the clipboard, the key events sent, and the texts that the
//! application behind the surface received. [`Faults`] says which requests
//! such a desktop refuses. [`inject`] runs the machine of
//! [`crate::injection`] against the model from its first request to its
//! last, as a caller does that carries out every request once and reports
//! what came of it.

use vstd::prelude::*;
use crate::error::FailureView;
use crate::fault::{ClipboardFaultView, EmitterFaultView};
use crate::injection::{outcome, InjectionView, RequestView, ResponseView, Stage};
use crate::keys::{chord, Direction, Key, KeyStroke, Platform, PASTE_LETTER};
use crate::surface::{plan_for, Surface, Visibility};

verus! {

/// The desktop as far as an injection is concerned.
pub struct Desktop {
    /// The shortcut convention of the desktop.
    pub platform: Platform,
    pub surface: Surface,
    /// The text on the clipboard; `None` where it holds no text.
    pub clipboard: Option<Seq<char>>,
    /// Whether the paste modifier is down.
    pub modifier_down: bool,
    /// Every key event sent so far, oldest first.
    pub strokes: Seq<KeyStroke>,
    /// Every text pasted into the application behind the surface, oldest
    /// first.
    pub delivered: Seq<Seq<char>>,
}

/// The requests that the desktop refuses, each with the fault it reports.
pub struct Faults {
    /// The window system carries out nothing that is asked of the surface.
    pub surface_stuck: bool,
    pub open: Option<ClipboardFaultView>,
    pub read: Option<ClipboardFaultView>,
    pub write: Option<ClipboardFaultView>,
    pub emitter: Option<EmitterFaultView>,
    pub restore: Option<ClipboardFaultView>,
}

impl Desktop {
    /// The answer to a clipboard request that fails with `fault` if one is
    /// given.
    pub open spec fn clipboard_answer(fault: Option<ClipboardFaultView>) -> ResponseView {
        match fault {
            Some(fault) => ResponseView::ClipboardFailed(fault),
            None => ResponseView::Done,
        }
    }

    /// The desktop after an attempt to put `text` on the clipboard.
    pub open spec fn written(self, text: Seq<char>, fault: Option<ClipboardFaultView>) -> Desktop {
        if fault is Some {
            self
        } else {
            Desktop { clipboard: Some(text), ..self }
        }
    }

    /// The desktop after a key event. The event is recorded. The paste
    /// modifier goes down on its press and up on its release. A click of the
    /// paste letter while the modifier is down pastes: the application behind
    /// the surface receives the clipboard's text, unless the surface still
    /// has the focus or the clipboard holds no text.
    pub open spec fn struck(self, stroke: KeyStroke) -> Desktop {
        let recorded = Desktop { strokes: self.strokes.push(stroke), ..self };
        if stroke.key == self.platform.modifier() {
            match stroke.direction {
                Direction::Press => Desktop { modifier_down: true, ..recorded },
                Direction::Release => Desktop { modifier_down: false, ..recorded },
                Direction::Click => recorded,
            }
        } else if stroke.key == Key::Unicode(PASTE_LETTER) && stroke.direction == Direction::Click
            && self.modifier_down && !self.surface.focused {
            match self.clipboard {
                Some(text) => Desktop { delivered: self.delivered.push(text), ..recorded },
                None => recorded,
            }
        } else {
            recorded
        }
    }

    /// The desktop after the three key events of the paste chord.
    pub open spec fn chorded(self, modifier: Key) -> Desktop {
        let strokes = chord(modifier);
        self.struck(strokes[0]).struck(strokes[1]).struck(strokes[2])
    }

    /// The desktop after `request`, and what it answers.
    pub open spec fn react(self, faults: Faults, request: RequestView) -> (Desktop, ResponseView) {
        match request {
            RequestView::Surface { ops } => (
                if faults.surface_stuck {
                    self
                } else {
                    Desktop { surface: self.surface.after_all(ops), ..self }
                },
                ResponseView::Done,
            ),
            RequestView::Wait { millis } => (self, ResponseView::Done),
            RequestView::OpenClipboard => (self, Self::clipboard_answer(faults.open)),
            RequestView::ReadClipboard => (
                self,
                match (faults.read, self.clipboard) {
                    (Some(fault), _) => ResponseView::ClipboardFailed(fault),
                    (None, Some(text)) => ResponseView::Text(text),
                    (None, None) => ResponseView::ClipboardFailed(
                        ClipboardFaultView::ContentNotAvailable,
                    ),
                },
            ),
            RequestView::WriteClipboard { text } => (
                self.written(text, faults.write),
                Self::clipboard_answer(faults.write),
            ),
            RequestView::AcquireEmitter => (
                self,
                match faults.emitter {
                    Some(fault) => ResponseView::EmitterFailed(fault),
                    None => ResponseView::Done,
                },
            ),
            RequestView::SendKey { stroke } => (self.struck(stroke), ResponseView::Done),
            RequestView::RestoreClipboard { text } => (
                self.written(text, faults.restore),
                Self::clipboard_answer(faults.restore),
            ),
            RequestView::Finish { result } => (self, ResponseView::Done),
        }
    }
}

/// An injection from its first request to its last.
pub struct Run {
    /// The desktop as the injection leaves it.
    pub desktop: Desktop,
    /// What the caller is told.
    pub result: Result<(), FailureView>,
    /// Every request made, in order, the final one included.
    pub requests: Seq<RequestView>,
}

/// An upper bound on the requests still to come.
pub open spec fn steps_left(stage: Stage) -> nat {
    match stage {
        Stage::Hiding => 11,
        Stage::Settling => 10,
        Stage::OpeningClipboard => 9,
        Stage::ReadingClipboard => 8,
        Stage::WritingClipboard => 7,
        Stage::AcquiringEmitter => 6,
        Stage::Pressing => 5,
        Stage::Clicking => 4,
        Stage::Releasing => 3,
        Stage::AwaitingPaste => 2,
        Stage::Restoring => 1,
        Stage::Finished => 0,
    }
}

/// Carries out `request`, the one that the machine in `state` has made, and
/// every request that follows, each against the desktop as the one before
/// left it. The run ends with the request that the finished machine makes.
pub open spec fn drive(state: InjectionView, request: RequestView, desktop: Desktop, faults: Faults) -> Run
    decreases steps_left(state.stage),
{
    if state.stage == Stage::Finished {
        Run { desktop, result: outcome(state.failure), requests: seq![request] }
    } else {
        let (reacted, response) = desktop.react(faults, request);
        let (next, following) = state.step(response);
        let rest = drive(next, following, reacted, faults);
        Run { requests: seq![request] + rest.requests, ..rest }
    }
}

/// The injection of `text` into `desktop`.
pub open spec fn inject(text: Seq<char>, platform: Platform, desktop: Desktop, faults: Faults) -> Run {
    drive(
        InjectionView::initial(text, platform),
        RequestView::Surface { ops: plan_for(Visibility::Hidden) },
        desktop,
        faults,
    )
}

} // verus!
