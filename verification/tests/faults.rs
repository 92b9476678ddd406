use voiceflow::fault::{ClipboardFault, EmitterFault};

#[test]
fn clipboard_fault_messages_are_the_backends() {
    assert_eq!(
        ClipboardFault::ContentNotAvailable.message(),
        "The clipboard contents were not available in the requested format or the clipboard is empty."
    );
    assert_eq!(
        ClipboardFault::ClipboardNotSupported.message(),
        "The selected clipboard is not supported with the current system configuration."
    );
    assert_eq!(
        ClipboardFault::ClipboardOccupied.message(),
        "The native clipboard is not accessible due to being held by another party."
    );
    assert_eq!(
        ClipboardFault::ConversionFailure.message(),
        "The image or the text that was about the be transferred to/from the clipboard could not be converted to the appropriate format."
    );
}

#[test]
fn unknown_clipboard_fault_carries_its_description() {
    let fault = ClipboardFault::Unknown { description: String::from("display gone") };
    assert_eq!(
        fault.message(),
        "Unknown error while interacting with the clipboard: display gone"
    );
    let empty = ClipboardFault::Unknown { description: String::new() };
    assert_eq!(empty.message(), "Unknown error while interacting with the clipboard: ");
}

#[test]
fn emitter_fault_messages_are_the_emitters() {
    assert_eq!(
        EmitterFault::EstablishCon("no display").message(),
        "no connection could be established: (no display)"
    );
    assert_eq!(
        EmitterFault::Reply.message(),
        "there was an error with the reply from the display server. this should not happen"
    );
    assert_eq!(
        EmitterFault::NoEmptyKeycodes.message(),
        "there were no empty keycodes that could be used"
    );
}
