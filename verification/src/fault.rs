//! What the clipboard backend and the input emitter report when they fail,
//! and the words they use for it.

use vstd::prelude::*;
use vstd::string::*;

verus! {

/// Why a clipboard operation failed, as the clipboard backend classifies it.
#[derive(Debug, PartialEq, Eq)]
pub enum ClipboardFault {
    /// The clipboard is empty or holds nothing in the requested format.
    ContentNotAvailable,
    /// The selected clipboard does not exist on this system.
    ClipboardNotSupported,
    /// Another party holds the clipboard.
    ClipboardOccupied,
    /// The data could not be converted to or from the clipboard's format.
    ConversionFailure,
    /// Anything else, with the backend's description.
    Unknown { description: String },
}

/// The mathematical value of a [`ClipboardFault`].
pub enum ClipboardFaultView {
    ContentNotAvailable,
    ClipboardNotSupported,
    ClipboardOccupied,
    ConversionFailure,
    Unknown { description: Seq<char> },
}

impl View for ClipboardFault {
    type V = ClipboardFaultView;

    open spec fn view(&self) -> ClipboardFaultView {
        match *self {
            ClipboardFault::ContentNotAvailable => ClipboardFaultView::ContentNotAvailable,
            ClipboardFault::ClipboardNotSupported => ClipboardFaultView::ClipboardNotSupported,
            ClipboardFault::ClipboardOccupied => ClipboardFaultView::ClipboardOccupied,
            ClipboardFault::ConversionFailure => ClipboardFaultView::ConversionFailure,
            ClipboardFault::Unknown { description } => ClipboardFaultView::Unknown {
                description: description@,
            },
        }
    }
}

impl Clone for ClipboardFault {
    fn clone(&self) -> (copy: ClipboardFault)
        ensures
            copy@ == self@,
    {
        match self {
            ClipboardFault::ContentNotAvailable => ClipboardFault::ContentNotAvailable,
            ClipboardFault::ClipboardNotSupported => ClipboardFault::ClipboardNotSupported,
            ClipboardFault::ClipboardOccupied => ClipboardFault::ClipboardOccupied,
            ClipboardFault::ConversionFailure => ClipboardFault::ConversionFailure,
            ClipboardFault::Unknown { description } => ClipboardFault::Unknown {
                description: description.clone(),
            },
        }
    }
}

impl ClipboardFaultView {
    /// The sentence the clipboard backend prints for this fault.
    pub open spec fn message(self) -> Seq<char> {
        match self {
            ClipboardFaultView::ContentNotAvailable =>
                "The clipboard contents were not available in the requested format or the clipboard is empty."@,
            ClipboardFaultView::ClipboardNotSupported =>
                "The selected clipboard is not supported with the current system configuration."@,
            ClipboardFaultView::ClipboardOccupied =>
                "The native clipboard is not accessible due to being held by another party."@,
            ClipboardFaultView::ConversionFailure =>
                "The image or the text that was about the be transferred to/from the clipboard could not be converted to the appropriate format."@,
            ClipboardFaultView::Unknown { description } =>
                "Unknown error while interacting with the clipboard: "@ + description,
        }
    }
}

/// Calls `Display` of `arboard::Error` (through `to_string`) on the variant
/// that `fault` mirrors. Trusted: the result is the fixed sentence that
/// arboard writes for that variant, and for `Unknown` its prefix followed by
/// the description, unchanged.
#[verifier::external_body]
fn clipboard_fault_text(fault: &ClipboardFault) -> (text: String)
    ensures
        text@ == fault@.message(),
{
    let error = match fault {
        ClipboardFault::ContentNotAvailable => arboard::Error::ContentNotAvailable,
        ClipboardFault::ClipboardNotSupported => arboard::Error::ClipboardNotSupported,
        ClipboardFault::ClipboardOccupied => arboard::Error::ClipboardOccupied,
        ClipboardFault::ConversionFailure => arboard::Error::ConversionFailure,
        ClipboardFault::Unknown { description } => arboard::Error::Unknown {
            description: description.clone(),
        },
    };
    error.to_string()
}

impl ClipboardFault {
    /// The fault in the backend's own words.
    pub fn message(&self) -> (text: String)
        ensures
            text@ == self@.message(),
    {
        clipboard_fault_text(self)
    }
}

/// Why no input emitter could be had, as the emitter classifies it.
#[derive(Clone, Copy, Debug, PartialEq, Eq)]
pub enum EmitterFault {
    /// No connection to the display server, with the emitter's note.
    EstablishCon(&'static str),
    /// The display server's reply could not be used.
    Reply,
    /// The keymap has no free keycode left.
    NoEmptyKeycodes,
}

/// The mathematical value of an [`EmitterFault`].
pub enum EmitterFaultView {
    EstablishCon(Seq<char>),
    Reply,
    NoEmptyKeycodes,
}

impl View for EmitterFault {
    type V = EmitterFaultView;

    open spec fn view(&self) -> EmitterFaultView {
        match *self {
            EmitterFault::EstablishCon(note) => EmitterFaultView::EstablishCon(note@),
            EmitterFault::Reply => EmitterFaultView::Reply,
            EmitterFault::NoEmptyKeycodes => EmitterFaultView::NoEmptyKeycodes,
        }
    }
}

impl EmitterFaultView {
    /// The sentence the emitter prints for this fault.
    pub open spec fn message(self) -> Seq<char> {
        match self {
            EmitterFaultView::EstablishCon(note) =>
                "no connection could be established: ("@ + note + ")"@,
            EmitterFaultView::Reply =>
                "there was an error with the reply from the display server. this should not happen"@,
            EmitterFaultView::NoEmptyKeycodes =>
                "there were no empty keycodes that could be used"@,
        }
    }
}

/// Calls `Display` of `enigo::NewConError` (through `to_string`) on the
/// variant that `fault` mirrors. Trusted: the result is the fixed sentence
/// that enigo writes for that variant, and for `EstablishCon` the note set
/// in round brackets after its prefix.
#[verifier::external_body]
fn emitter_fault_text(fault: &EmitterFault) -> (text: String)
    ensures
        text@ == fault@.message(),
{
    let error = match fault {
        EmitterFault::EstablishCon(note) => enigo::NewConError::EstablishCon(note),
        EmitterFault::Reply => enigo::NewConError::Reply,
        EmitterFault::NoEmptyKeycodes => enigo::NewConError::NoEmptyKeycodes,
    };
    error.to_string()
}

impl EmitterFault {
    /// The fault in the emitter's own words.
    pub fn message(&self) -> (text: String)
        ensures
            text@ == self@.message(),
    {
        emitter_fault_text(self)
    }
}

} // verus!
