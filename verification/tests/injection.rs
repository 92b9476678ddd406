use voiceflow::error::{reply, ErrorKind, Failure};
use voiceflow::fault::{ClipboardFault, EmitterFault};
use voiceflow::injection::{Injection, Request, Response, Stage, RESTORE_MILLIS, SETTLE_MILLIS};
use voiceflow::keys::{paste_chord, Direction, Key, KeyStroke, Platform, PASTE_LETTER};
use voiceflow::surface::WindowOp;

/// A desktop in memory that does to itself what each request asks.
struct FakeDesktop {
    platform: Platform,
    surface_visible: bool,
    surface_focused: bool,
    surface_stuck: bool,
    clipboard: Option<String>,
    modifier_down: bool,
    strokes: Vec<KeyStroke>,
    delivered: Vec<String>,
    waits: Vec<u64>,
    open_fault: Option<ClipboardFault>,
    read_fault: Option<ClipboardFault>,
    write_fault: Option<ClipboardFault>,
    emitter_fault: Option<EmitterFault>,
    restore_fault: Option<ClipboardFault>,
}

fn desktop(platform: Platform, clipboard: Option<&str>) -> FakeDesktop {
    FakeDesktop {
        platform,
        surface_visible: true,
        surface_focused: true,
        surface_stuck: false,
        clipboard: clipboard.map(String::from),
        modifier_down: false,
        strokes: Vec::new(),
        delivered: Vec::new(),
        waits: Vec::new(),
        open_fault: None,
        read_fault: None,
        write_fault: None,
        emitter_fault: None,
        restore_fault: None,
    }
}

fn answer(fault: &Option<ClipboardFault>) -> Response {
    match fault {
        Some(fault) => Response::ClipboardFailed(fault.clone()),
        None => Response::Done,
    }
}

impl FakeDesktop {
    fn strike(&mut self, stroke: KeyStroke) {
        self.strokes.push(stroke);
        if stroke.key == self.platform.paste_modifier() {
            match stroke.direction {
                Direction::Press => self.modifier_down = true,
                Direction::Release => self.modifier_down = false,
                Direction::Click => {}
            }
        } else if stroke.key == Key::Unicode(PASTE_LETTER)
            && stroke.direction == Direction::Click
            && self.modifier_down
            && !self.surface_focused
        {
            if let Some(text) = &self.clipboard {
                self.delivered.push(text.clone());
            }
        }
    }

    fn react(&mut self, request: &Request) -> Response {
        match request {
            Request::Surface { ops } => {
                if !self.surface_stuck {
                    for op in ops {
                        match op {
                            WindowOp::Show => self.surface_visible = true,
                            WindowOp::Unminimize => {}
                            WindowOp::Focus => self.surface_focused = self.surface_visible,
                            WindowOp::Hide => {
                                self.surface_visible = false;
                                self.surface_focused = false;
                            }
                        }
                    }
                }
                Response::Done
            }
            Request::Wait { millis } => {
                self.waits.push(*millis);
                Response::Done
            }
            Request::OpenClipboard => answer(&self.open_fault),
            Request::ReadClipboard => match (&self.read_fault, &self.clipboard) {
                (Some(fault), _) => Response::ClipboardFailed(fault.clone()),
                (None, Some(text)) => Response::Text(text.clone()),
                (None, None) => Response::ClipboardFailed(ClipboardFault::ContentNotAvailable),
            },
            Request::WriteClipboard { text } => {
                if self.write_fault.is_none() {
                    self.clipboard = Some(text.clone());
                }
                answer(&self.write_fault)
            }
            Request::AcquireEmitter => match self.emitter_fault {
                Some(fault) => Response::EmitterFailed(fault),
                None => Response::Done,
            },
            Request::SendKey { stroke } => {
                self.strike(*stroke);
                Response::Done
            }
            Request::RestoreClipboard { text } => {
                if self.restore_fault.is_none() {
                    self.clipboard = Some(text.clone());
                }
                answer(&self.restore_fault)
            }
            Request::Finish { .. } => Response::Done,
        }
    }
}

/// Carries an injection out against the desktop, as the program does, and
/// returns its result with every request that was made.
fn inject(text: &str, platform: Platform, desk: &mut FakeDesktop) -> (Result<(), Failure>, Vec<Request>) {
    let (mut injection, mut request) = Injection::begin(String::from(text), platform);
    let mut made = Vec::new();
    for _ in 0..64 {
        if let Request::Finish { result } = &request {
            let result = result.clone();
            assert!(injection.is_finished());
            made.push(request);
            return (result, made);
        }
        assert!(!injection.is_finished());
        let response = desk.react(&request);
        made.push(request);
        let next = injection.advance(response);
        injection = next.0;
        request = next.1;
    }
    panic!("the injection did not end");
}

fn stroke(key: Key, direction: Direction) -> Request {
    Request::SendKey { stroke: KeyStroke { key, direction } }
}

fn script(text: &str, modifier: Key, previous: Option<&str>) -> Vec<Request> {
    let mut expected = vec![
        Request::Surface { ops: vec![WindowOp::Hide] },
        Request::Wait { millis: 150 },
        Request::OpenClipboard,
        Request::ReadClipboard,
        Request::WriteClipboard { text: String::from(text) },
        Request::AcquireEmitter,
        stroke(modifier, Direction::Press),
        stroke(Key::Unicode('v'), Direction::Click),
        stroke(modifier, Direction::Release),
    ];
    if let Some(previous) = previous {
        expected.push(Request::Wait { millis: 100 });
        expected.push(Request::RestoreClipboard { text: String::from(previous) });
    }
    expected.push(Request::Finish { result: Ok(()) });
    expected
}

#[test]
fn delays_are_as_documented() {
    assert_eq!(SETTLE_MILLIS, 150);
    assert_eq!(RESTORE_MILLIS, 100);
}

#[test]
fn injection_starts_by_hiding_the_surface() {
    let (injection, request) = Injection::begin(String::from("hello"), Platform::Other);
    assert_eq!(injection.stage(), Stage::Hiding);
    assert!(!injection.is_finished());
    assert_eq!(request, Request::Surface { ops: vec![WindowOp::Hide] });
}

#[test]
fn empty_text_is_injected_and_the_clipboard_restored() {
    let mut desk = desktop(Platform::Other, Some("kept"));
    let (result, made) = inject("", Platform::Other, &mut desk);
    assert_eq!(result, Ok(()));
    assert_eq!(made, script("", Key::Control, Some("kept")));
    assert_eq!(desk.delivered, vec![String::new()]);
    assert_eq!(desk.clipboard, Some(String::from("kept")));
}

#[test]
fn empty_text_is_injected_into_an_empty_clipboard() {
    let mut desk = desktop(Platform::Other, None);
    let (result, made) = inject("", Platform::Other, &mut desk);
    assert_eq!(result, Ok(()));
    assert_eq!(made, script("", Key::Control, None));
    assert_eq!(desk.clipboard, Some(String::new()));
}

#[test]
fn non_ascii_text_arrives_intact() {
    let text = "héllo 世界";
    let mut desk = desktop(Platform::Other, Some("before"));
    let (result, made) = inject(text, Platform::Other, &mut desk);
    assert_eq!(result, Ok(()));
    assert_eq!(desk.delivered, vec![String::from("héllo 世界")]);
    assert_eq!(desk.delivered[0].chars().count(), 8);
    assert_eq!(made[4], Request::WriteClipboard { text: String::from("héllo 世界") });
    assert_eq!(desk.clipboard, Some(String::from("before")));
}

#[test]
fn unavailable_clipboard_fails_without_a_key_event() {
    let mut desk = desktop(Platform::Other, Some("kept"));
    desk.open_fault = Some(ClipboardFault::ClipboardNotSupported);
    let (result, made) = inject("hello", Platform::Other, &mut desk);
    let failure = Failure {
        kind: ErrorKind::ClipboardUnavailable,
        reason: String::from(
            "The selected clipboard is not supported with the current system configuration.",
        ),
    };
    assert_eq!(result, Err(failure.clone()));
    assert_eq!(
        made,
        vec![
            Request::Surface { ops: vec![WindowOp::Hide] },
            Request::Wait { millis: 150 },
            Request::OpenClipboard,
            Request::Finish { result: Err(failure) },
        ]
    );
    assert!(desk.strokes.is_empty());
    assert!(desk.delivered.is_empty());
    assert_eq!(desk.clipboard, Some(String::from("kept")));
    assert!(!desk.surface_visible);
}

#[test]
fn clipboard_holds_the_old_text_again_after_an_injection() {
    let mut desk = desktop(Platform::Other, Some("T"));
    let (result, made) = inject("X", Platform::Other, &mut desk);
    assert_eq!(result, Ok(()));
    assert_eq!(made, script("X", Key::Control, Some("T")));
    assert_eq!(desk.delivered, vec![String::from("X")]);
    assert_eq!(desk.clipboard, Some(String::from("T")));
    assert_eq!(desk.waits, vec![150, 100]);
}

#[test]
fn same_text_as_on_the_clipboard_is_still_pasted_and_restored() {
    let mut desk = desktop(Platform::Other, Some("same"));
    let (result, made) = inject("same", Platform::Other, &mut desk);
    assert_eq!(result, Ok(()));
    assert_eq!(made, script("same", Key::Control, Some("same")));
    assert_eq!(desk.delivered, vec![String::from("same")]);
    assert_eq!(desk.clipboard, Some(String::from("same")));
}

#[test]
fn chord_is_press_click_release_with_control() {
    let mut desk = desktop(Platform::Other, None);
    let (result, _) = inject("hello", Platform::Other, &mut desk);
    assert_eq!(result, Ok(()));
    assert_eq!(
        desk.strokes,
        vec![
            KeyStroke { key: Key::Control, direction: Direction::Press },
            KeyStroke { key: Key::Unicode('v'), direction: Direction::Click },
            KeyStroke { key: Key::Control, direction: Direction::Release },
        ]
    );
    assert_eq!(desk.strokes, paste_chord(Platform::Other));
    assert!(!desk.modifier_down);
}

#[test]
fn chord_uses_meta_on_macos() {
    let mut desk = desktop(Platform::MacOs, Some("old"));
    let (result, made) = inject("hello", Platform::MacOs, &mut desk);
    assert_eq!(result, Ok(()));
    assert_eq!(made, script("hello", Key::Meta, Some("old")));
    assert_eq!(desk.strokes, paste_chord(Platform::MacOs));
    assert_eq!(desk.delivered, vec![String::from("hello")]);
    assert_eq!(Platform::MacOs.paste_modifier(), Key::Meta);
    assert_eq!(Platform::Other.paste_modifier(), Key::Control);
}

#[test]
fn clipboard_without_text_leaves_nothing_to_restore() {
    let mut desk = desktop(Platform::Other, None);
    let (result, made) = inject("hello", Platform::Other, &mut desk);
    assert_eq!(result, Ok(()));
    assert_eq!(made, script("hello", Key::Control, None));
    assert_eq!(desk.delivered, vec![String::from("hello")]);
    assert_eq!(desk.clipboard, Some(String::from("hello")));
    assert_eq!(desk.waits, vec![150]);
}

#[test]
fn unreadable_clipboard_is_no_error() {
    let mut desk = desktop(Platform::Other, Some("hidden away"));
    desk.read_fault = Some(ClipboardFault::ClipboardOccupied);
    let (result, made) = inject("hello", Platform::Other, &mut desk);
    assert_eq!(result, Ok(()));
    assert_eq!(made, script("hello", Key::Control, None));
    assert_eq!(desk.delivered, vec![String::from("hello")]);
    assert_eq!(desk.clipboard, Some(String::from("hello")));
}

#[test]
fn failed_write_ends_the_injection() {
    let mut desk = desktop(Platform::Other, Some("kept"));
    desk.write_fault = Some(ClipboardFault::Unknown { description: String::from("owner died") });
    let (result, made) = inject("hello", Platform::Other, &mut desk);
    let failure = Failure {
        kind: ErrorKind::ClipboardWriteFailed,
        reason: String::from("Unknown error while interacting with the clipboard: owner died"),
    };
    assert_eq!(result, Err(failure.clone()));
    assert_eq!(made.len(), 6);
    assert_eq!(made[4], Request::WriteClipboard { text: String::from("hello") });
    assert_eq!(made[5], Request::Finish { result: Err(failure) });
    assert!(desk.strokes.is_empty());
    assert_eq!(desk.clipboard, Some(String::from("kept")));
}

#[test]
fn unavailable_emitter_ends_the_injection_with_the_text_on_the_clipboard() {
    let mut desk = desktop(Platform::Other, Some("kept"));
    desk.emitter_fault = Some(EmitterFault::EstablishCon("no display"));
    let (result, made) = inject("hello", Platform::Other, &mut desk);
    let failure = Failure {
        kind: ErrorKind::InputEmitterUnavailable,
        reason: String::from("no connection could be established: (no display)"),
    };
    assert_eq!(result, Err(failure.clone()));
    assert_eq!(made.len(), 7);
    assert_eq!(made[5], Request::AcquireEmitter);
    assert_eq!(made[6], Request::Finish { result: Err(failure) });
    assert!(desk.strokes.is_empty());
    assert!(desk.delivered.is_empty());
    assert_eq!(desk.clipboard, Some(String::from("hello")));
}

#[test]
fn failed_restore_is_not_reported() {
    let mut desk = desktop(Platform::Other, Some("kept"));
    desk.restore_fault = Some(ClipboardFault::ClipboardOccupied);
    let (result, made) = inject("hello", Platform::Other, &mut desk);
    assert_eq!(result, Ok(()));
    assert_eq!(made, script("hello", Key::Control, Some("kept")));
    assert_eq!(desk.delivered, vec![String::from("hello")]);
    assert_eq!(desk.clipboard, Some(String::from("hello")));
}

#[test]
fn surface_that_will_not_hide_does_not_stop_the_chord() {
    let mut desk = desktop(Platform::Other, Some("kept"));
    desk.surface_stuck = true;
    let (result, made) = inject("hello", Platform::Other, &mut desk);
    assert_eq!(result, Ok(()));
    assert_eq!(made, script("hello", Key::Control, Some("kept")));
    assert_eq!(desk.strokes, paste_chord(Platform::Other));
    assert!(desk.surface_visible);
    assert!(desk.delivered.is_empty());
    assert_eq!(desk.clipboard, Some(String::from("kept")));
}

#[test]
fn first_failing_step_names_the_error() {
    let mut desk = desktop(Platform::Other, Some("kept"));
    desk.open_fault = Some(ClipboardFault::ClipboardOccupied);
    desk.write_fault = Some(ClipboardFault::ConversionFailure);
    desk.emitter_fault = Some(EmitterFault::NoEmptyKeycodes);
    let (result, _) = inject("hello", Platform::Other, &mut desk);
    assert_eq!(result.unwrap_err().kind, ErrorKind::ClipboardUnavailable);

    let mut desk = desktop(Platform::Other, Some("kept"));
    desk.write_fault = Some(ClipboardFault::ConversionFailure);
    desk.emitter_fault = Some(EmitterFault::NoEmptyKeycodes);
    let (result, _) = inject("hello", Platform::Other, &mut desk);
    assert_eq!(result.unwrap_err().kind, ErrorKind::ClipboardWriteFailed);

    let mut desk = desktop(Platform::Other, Some("kept"));
    desk.emitter_fault = Some(EmitterFault::NoEmptyKeycodes);
    let (result, _) = inject("hello", Platform::Other, &mut desk);
    let failure = result.unwrap_err();
    assert_eq!(failure.kind, ErrorKind::InputEmitterUnavailable);
    assert_eq!(failure.reason, "there were no empty keycodes that could be used");
}

#[test]
fn failures_of_best_effort_steps_are_passed_over() {
    let (injection, _) = Injection::begin(String::from("hello"), Platform::Other);
    let (injection, request) =
        injection.advance(Response::ClipboardFailed(ClipboardFault::ClipboardOccupied));
    assert_eq!(request, Request::Wait { millis: 150 });
    let (injection, request) = injection.advance(Response::EmitterFailed(EmitterFault::Reply));
    assert_eq!(request, Request::OpenClipboard);
    assert_eq!(injection.stage(), Stage::OpeningClipboard);
}

#[test]
fn key_events_are_not_looked_at() {
    let (mut injection, mut request) = Injection::begin(String::from("hello"), Platform::Other);
    for _ in 0..6 {
        let next = injection.advance(Response::Done);
        injection = next.0;
        request = next.1;
    }
    assert_eq!(injection.stage(), Stage::Pressing);
    assert_eq!(request, stroke(Key::Control, Direction::Press));
    let (injection, request) =
        injection.advance(Response::EmitterFailed(EmitterFault::NoEmptyKeycodes));
    assert_eq!(request, stroke(Key::Unicode('v'), Direction::Click));
    let (injection, request) =
        injection.advance(Response::ClipboardFailed(ClipboardFault::ClipboardOccupied));
    assert_eq!(request, stroke(Key::Control, Direction::Release));
    let (injection, request) = injection.advance(Response::Text(String::from("stray")));
    assert_eq!(request, Request::Finish { result: Ok(()) });
    assert!(injection.is_finished());
}

#[test]
fn finished_injection_repeats_its_result() {
    let (injection, _) = Injection::begin(String::from("hello"), Platform::Other);
    let (injection, _) = injection.advance(Response::Done);
    let (injection, _) = injection.advance(Response::Done);
    let (injection, request) =
        injection.advance(Response::ClipboardFailed(ClipboardFault::ContentNotAvailable));
    assert!(injection.is_finished());
    let (injection, again) = injection.advance(Response::Done);
    assert!(injection.is_finished());
    assert_eq!(request, again);
    let (_, third) = injection.advance(Response::Text(String::from("late")));
    assert_eq!(again, third);
}

#[test]
fn reply_keeps_the_reason_alone() {
    assert_eq!(reply(Ok(())), Ok(()));
    let failure = Failure {
        kind: ErrorKind::ClipboardWriteFailed,
        reason: String::from("no clipboard access"),
    };
    assert_eq!(reply(Err(failure)), Err(String::from("no clipboard access")));
}

#[test]
fn injection_reply_is_the_backends_sentence() {
    let mut desk = desktop(Platform::Other, None);
    desk.open_fault = Some(ClipboardFault::ContentNotAvailable);
    let (result, _) = inject("hello", Platform::Other, &mut desk);
    assert_eq!(
        reply(result),
        Err(String::from(
            "The clipboard contents were not available in the requested format or the clipboard is empty."
        ))
    );
}
