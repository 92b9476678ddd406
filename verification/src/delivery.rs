//! What an injection comes to: its result, the requests it makes, and what
//! it leaves on the desktop, for every desktop of the model and every
//! combination of refusals.

use vstd::prelude::*;
use crate::desktop::{drive, inject, Desktop, Faults};
use crate::error::{ErrorKind, FailureView};
use crate::injection::{
    outcome, InjectionView, RequestView, Stage, RESTORE_MILLIS, SETTLE_MILLIS,
};
use crate::keys::{chord, Platform};
use crate::surface::{law_plan_reaches_target, plan_for, Surface, Visibility};

verus! {

/// The failure, if any, with which an injection into a desktop with these
/// faults ends: that of the first refused step among opening the clipboard,
/// writing the text and setting up the emitter.
pub open spec fn expected_failure(faults: Faults) -> Option<FailureView> {
    if faults.open is Some {
        Some(
            FailureView {
                kind: ErrorKind::ClipboardUnavailable,
                reason: faults.open->0.message(),
            },
        )
    } else if faults.write is Some {
        Some(
            FailureView {
                kind: ErrorKind::ClipboardWriteFailed,
                reason: faults.write->0.message(),
            },
        )
    } else if faults.emitter is Some {
        Some(
            FailureView {
                kind: ErrorKind::InputEmitterUnavailable,
                reason: faults.emitter->0.message(),
            },
        )
    } else {
        None
    }
}

/// The text that the pipeline finds on the clipboard and will put back.
pub open spec fn snapshot_of(desktop: Desktop, faults: Faults) -> Option<Seq<char>> {
    if faults.read is Some {
        None
    } else {
        desktop.clipboard
    }
}

/// The surface as the run leaves it: asked to hide, and hidden unless the
/// window system refused.
pub open spec fn surface_after(desktop: Desktop, faults: Faults) -> Surface {
    if faults.surface_stuck || !desktop.surface.exists {
        desktop.surface
    } else {
        Surface { visible: false, focused: false, ..desktop.surface }
    }
}

/// The desktop lets the paste through: its shortcut convention is the one
/// the injection was started for, the paste modifier is up, and the surface
/// can be hidden or does not hold the focus anyway.
pub open spec fn ready_for_paste(desktop: Desktop, faults: Faults, platform: Platform) -> bool {
    &&& desktop.platform == platform
    &&& !desktop.modifier_down
    &&& desktop.surface.well_formed()
    &&& !faults.surface_stuck || !desktop.surface.focused
}

/// The requests up to the point where the clipboard is opened.
pub open spec fn opening() -> Seq<RequestView> {
    seq![
        RequestView::Surface { ops: plan_for(Visibility::Hidden) },
        RequestView::Wait { millis: SETTLE_MILLIS },
        RequestView::OpenClipboard,
    ]
}

/// The requests from the clipboard's opening to the end of the chord.
pub open spec fn swap_and_paste(text: Seq<char>, platform: Platform) -> Seq<RequestView> {
    let strokes = chord(platform.modifier());
    seq![
        RequestView::ReadClipboard,
        RequestView::WriteClipboard { text },
        RequestView::AcquireEmitter,
        RequestView::SendKey { stroke: strokes[0] },
        RequestView::SendKey { stroke: strokes[1] },
        RequestView::SendKey { stroke: strokes[2] },
    ]
}

/// The requests that follow the chord: where there is a snapshot, the
/// restore delay and the restoring; then the end.
pub open spec fn closing(snapshot: Option<Seq<char>>) -> Seq<RequestView> {
    match snapshot {
        Some(previous) => seq![
            RequestView::Wait { millis: RESTORE_MILLIS },
            RequestView::RestoreClipboard { text: previous },
            RequestView::Finish { result: Ok(()) },
        ],
        None => seq![RequestView::Finish { result: Ok(()) }],
    }
}

/// An injection succeeds exactly where the clipboard can be opened, the text
/// can be written and the emitter can be had. Where one of them fails, the
/// error names the first that did, with the reason it gave. Neither a
/// surface that will not hide, nor a clipboard that cannot be read, nor a
/// failed restore makes an injection fail.
pub proof fn law_result_of_injection(
    text: Seq<char>,
    platform: Platform,
    desktop: Desktop,
    faults: Faults,
)
    ensures
        inject(text, platform, desktop, faults).result == outcome(expected_failure(faults)),
{
    if faults.open is Some {
        law_unavailable_clipboard_ends_the_injection(text, platform, desktop, faults);
    } else if faults.write is Some {
        law_failed_write_ends_the_injection(text, platform, desktop, faults);
    } else if faults.emitter is Some {
        law_unavailable_emitter_ends_the_injection(text, platform, desktop, faults);
    } else {
        lemma_unhindered_run(text, platform, desktop, faults);
    }
}

/// Where the clipboard cannot be opened, the injection ends with
/// `ClipboardUnavailable` and the backend's reason. No key event is sent,
/// nothing is pasted and the clipboard is not touched: beyond asking the
/// surface to hide and waiting, nothing was done.
pub proof fn law_unavailable_clipboard_ends_the_injection(
    text: Seq<char>,
    platform: Platform,
    desktop: Desktop,
    faults: Faults,
)
    requires
        faults.open is Some,
    ensures
        ({
            let run = inject(text, platform, desktop, faults);
            let failure = FailureView {
                kind: ErrorKind::ClipboardUnavailable,
                reason: faults.open->0.message(),
            };
            &&& run.result == Err::<(), FailureView>(failure)
            &&& run.requests == opening().push(RequestView::Finish { result: Err(failure) })
            &&& run.desktop.strokes == desktop.strokes
            &&& run.desktop.delivered == desktop.delivered
            &&& run.desktop.clipboard == desktop.clipboard
        }),
{
    reveal_with_fuel(drive, 5);
    let run = inject(text, platform, desktop, faults);
    let failure = FailureView {
        kind: ErrorKind::ClipboardUnavailable,
        reason: faults.open->0.message(),
    };
    assert(run.requests =~= opening().push(RequestView::Finish { result: Err(failure) }));
}

/// Where the text cannot be put on the clipboard, the injection ends with
/// `ClipboardWriteFailed` and the backend's reason, before the emitter is
/// asked for. No key event is sent, nothing is pasted, and the clipboard
/// holds what it held.
pub proof fn law_failed_write_ends_the_injection(
    text: Seq<char>,
    platform: Platform,
    desktop: Desktop,
    faults: Faults,
)
    requires
        faults.open is None,
        faults.write is Some,
    ensures
        ({
            let run = inject(text, platform, desktop, faults);
            let failure = FailureView {
                kind: ErrorKind::ClipboardWriteFailed,
                reason: faults.write->0.message(),
            };
            &&& run.result == Err::<(), FailureView>(failure)
            &&& run.requests == opening() + seq![
                RequestView::ReadClipboard,
                RequestView::WriteClipboard { text },
                RequestView::Finish { result: Err(failure) },
            ]
            &&& run.desktop.strokes == desktop.strokes
            &&& run.desktop.delivered == desktop.delivered
            &&& run.desktop.clipboard == desktop.clipboard
        }),
{
    reveal_with_fuel(drive, 7);
    let run = inject(text, platform, desktop, faults);
    let failure = FailureView {
        kind: ErrorKind::ClipboardWriteFailed,
        reason: faults.write->0.message(),
    };
    assert(run.requests =~= opening() + seq![
        RequestView::ReadClipboard,
        RequestView::WriteClipboard { text },
        RequestView::Finish { result: Err(failure) },
    ]);
}

/// Where the emitter cannot be had, the injection ends with
/// `InputEmitterUnavailable` and the emitter's reason. No key event is sent
/// and nothing is pasted. The text is on the clipboard by then and stays
/// there: what was done is not taken back.
pub proof fn law_unavailable_emitter_ends_the_injection(
    text: Seq<char>,
    platform: Platform,
    desktop: Desktop,
    faults: Faults,
)
    requires
        faults.open is None,
        faults.write is None,
        faults.emitter is Some,
    ensures
        ({
            let run = inject(text, platform, desktop, faults);
            let failure = FailureView {
                kind: ErrorKind::InputEmitterUnavailable,
                reason: faults.emitter->0.message(),
            };
            &&& run.result == Err::<(), FailureView>(failure)
            &&& run.requests == opening() + seq![
                RequestView::ReadClipboard,
                RequestView::WriteClipboard { text },
                RequestView::AcquireEmitter,
                RequestView::Finish { result: Err(failure) },
            ]
            &&& run.desktop.strokes == desktop.strokes
            &&& run.desktop.delivered == desktop.delivered
            &&& run.desktop.clipboard == Some(text)
        }),
{
    reveal_with_fuel(drive, 8);
    let run = inject(text, platform, desktop, faults);
    let failure = FailureView {
        kind: ErrorKind::InputEmitterUnavailable,
        reason: faults.emitter->0.message(),
    };
    assert(run.requests =~= opening() + seq![
        RequestView::ReadClipboard,
        RequestView::WriteClipboard { text },
        RequestView::AcquireEmitter,
        RequestView::Finish { result: Err(failure) },
    ]);
}

/// A successful injection makes the requests of the pipeline in their order:
/// hide and settle before anything is pasted; read, write, acquire, then the
/// chord as press, click, release; and only where the clipboard held a text
/// that could be read, the restore delay and the restoring. The chord is
/// struck once, and it is struck whether or not the surface could be hidden.
pub proof fn law_successful_injection_follows_the_script(
    text: Seq<char>,
    platform: Platform,
    desktop: Desktop,
    faults: Faults,
)
    requires
        expected_failure(faults) is None,
    ensures
        ({
            let run = inject(text, platform, desktop, faults);
            &&& run.requests == opening() + swap_and_paste(text, platform) + closing(
                snapshot_of(desktop, faults),
            )
            &&& run.desktop.strokes == desktop.strokes + chord(platform.modifier())
            &&& run.desktop.surface == surface_after(desktop, faults)
        }),
{
    lemma_unhindered_run(text, platform, desktop, faults);
}

/// A successful injection delivers the text as it was given, whatever it
/// holds: the application behind the surface receives exactly `text`, once,
/// provided the desktop lets the paste through. The modifier is up again
/// afterwards.
pub proof fn law_text_is_delivered_intact(
    text: Seq<char>,
    platform: Platform,
    desktop: Desktop,
    faults: Faults,
)
    requires
        expected_failure(faults) is None,
        ready_for_paste(desktop, faults, platform),
    ensures
        ({
            let run = inject(text, platform, desktop, faults);
            &&& run.desktop.delivered == desktop.delivered.push(text)
            &&& !run.desktop.modifier_down
        }),
{
    lemma_unhindered_run(text, platform, desktop, faults);
}

/// Whatever the desktop and whatever it refuses, an injection delivers
/// nothing but the text it was given, and that at most once.
pub proof fn law_nothing_else_is_delivered(
    text: Seq<char>,
    platform: Platform,
    desktop: Desktop,
    faults: Faults,
)
    ensures
        ({
            let run = inject(text, platform, desktop, faults);
            ||| run.desktop.delivered == desktop.delivered
            ||| run.desktop.delivered == desktop.delivered.push(text)
        }),
{
    if faults.open is Some {
        law_unavailable_clipboard_ends_the_injection(text, platform, desktop, faults);
    } else if faults.write is Some {
        law_failed_write_ends_the_injection(text, platform, desktop, faults);
    } else if faults.emitter is Some {
        law_unavailable_emitter_ends_the_injection(text, platform, desktop, faults);
    } else {
        lemma_unhindered_run(text, platform, desktop, faults);
    }
}

/// After a successful injection the clipboard holds what it held before,
/// where that was a text which could be read and put back.
pub proof fn law_clipboard_round_trip(
    text: Seq<char>,
    previous: Seq<char>,
    platform: Platform,
    desktop: Desktop,
    faults: Faults,
)
    requires
        expected_failure(faults) is None,
        faults.read is None,
        faults.restore is None,
        desktop.clipboard == Some(previous),
    ensures
        inject(text, platform, desktop, faults).desktop.clipboard == Some(previous),
{
    lemma_unhindered_run(text, platform, desktop, faults);
}

/// Where there was nothing to put back, or it could not be put back, a
/// successful injection leaves the injected text on the clipboard, and
/// succeeds all the same.
pub proof fn law_unrestored_clipboard_holds_the_text(
    text: Seq<char>,
    platform: Platform,
    desktop: Desktop,
    faults: Faults,
)
    requires
        expected_failure(faults) is None,
        snapshot_of(desktop, faults) is None || faults.restore is Some,
    ensures
        ({
            let run = inject(text, platform, desktop, faults);
            &&& run.result == Ok::<(), FailureView>(())
            &&& run.desktop.clipboard == Some(text)
        }),
{
    lemma_unhindered_run(text, platform, desktop, faults);
}

/// What the chord does: three key events are recorded, and nothing but the
/// clipboard's text is delivered, at most once. Where the desktop lets the
/// paste through, the text is delivered and the modifier is up again. The
/// clipboard and the surface stay as they were.
proof fn lemma_chord(desktop: Desktop, platform: Platform)
    ensures
        ({
            let after = desktop.chorded(platform.modifier());
            let pasted = match desktop.clipboard {
                Some(text) => desktop.delivered.push(text),
                None => desktop.delivered,
            };
            &&& after.strokes == desktop.strokes + chord(platform.modifier())
            &&& after.clipboard == desktop.clipboard
            &&& after.surface == desktop.surface
            &&& after.delivered == desktop.delivered || after.delivered == pasted
            &&& desktop.platform == platform && !desktop.modifier_down && !desktop.surface.focused
                ==> !after.modifier_down && after.delivered == pasted
        }),
{
    let after = desktop.chorded(platform.modifier());
    assert(after.strokes =~= desktop.strokes + chord(platform.modifier()));
}

/// The run from the release of the modifier to the end.
proof fn lemma_run_from_release(state: InjectionView, desktop: Desktop, faults: Faults)
    requires
        state.stage == Stage::Releasing,
        state.failure is None,
    ensures
        ({
            let stroke = chord(state.platform.modifier())[2];
            let run = drive(state, RequestView::SendKey { stroke }, desktop, faults);
            let struck = desktop.struck(stroke);
            &&& run.result == Ok::<(), FailureView>(())
            &&& run.requests == seq![RequestView::SendKey { stroke }] + closing(state.snapshot)
            &&& run.desktop == match state.snapshot {
                Some(previous) => struck.written(previous, faults.restore),
                None => struck,
            }
        }),
{
    reveal_with_fuel(drive, 4);
    let stroke = chord(state.platform.modifier())[2];
    let run = drive(state, RequestView::SendKey { stroke }, desktop, faults);
    assert(run.requests =~= seq![RequestView::SendKey { stroke }] + closing(state.snapshot));
}

/// The run from the press of the modifier to the end.
proof fn lemma_run_from_press(state: InjectionView, desktop: Desktop, faults: Faults)
    requires
        state.stage == Stage::Pressing,
        state.failure is None,
    ensures
        ({
            let strokes = chord(state.platform.modifier());
            let run = drive(state, RequestView::SendKey { stroke: strokes[0] }, desktop, faults);
            let chorded = desktop.chorded(state.platform.modifier());
            &&& run.result == Ok::<(), FailureView>(())
            &&& run.requests == seq![
                RequestView::SendKey { stroke: strokes[0] },
                RequestView::SendKey { stroke: strokes[1] },
                RequestView::SendKey { stroke: strokes[2] },
            ] + closing(state.snapshot)
            &&& run.desktop == match state.snapshot {
                Some(previous) => chorded.written(previous, faults.restore),
                None => chorded,
            }
        }),
{
    reveal_with_fuel(drive, 3);
    let strokes = chord(state.platform.modifier());
    let run = drive(state, RequestView::SendKey { stroke: strokes[0] }, desktop, faults);
    let clicked = desktop.struck(strokes[0]).struck(strokes[1]);
    lemma_run_from_release(state.at(Stage::Releasing), clicked, faults);
    assert(run.requests =~= seq![
        RequestView::SendKey { stroke: strokes[0] },
        RequestView::SendKey { stroke: strokes[1] },
        RequestView::SendKey { stroke: strokes[2] },
    ] + closing(state.snapshot));
}

/// The run from the reading of the clipboard to the end, where the text can
/// be written and the emitter can be had.
proof fn lemma_run_from_read(state: InjectionView, desktop: Desktop, faults: Faults)
    requires
        state.stage == Stage::ReadingClipboard,
        state.failure is None,
        faults.write is None,
        faults.emitter is None,
    ensures
        ({
            let run = drive(state, RequestView::ReadClipboard, desktop, faults);
            let snapshot = snapshot_of(desktop, faults);
            let chorded = Desktop { clipboard: Some(state.text), ..desktop }.chorded(
                state.platform.modifier(),
            );
            &&& run.result == Ok::<(), FailureView>(())
            &&& run.requests == swap_and_paste(state.text, state.platform) + closing(snapshot)
            &&& run.desktop == match snapshot {
                Some(previous) => chorded.written(previous, faults.restore),
                None => chorded,
            }
        }),
{
    reveal_with_fuel(drive, 4);
    let run = drive(state, RequestView::ReadClipboard, desktop, faults);
    let snapshot = snapshot_of(desktop, faults);
    let loaded = Desktop { clipboard: Some(state.text), ..desktop };
    let pressing = InjectionView { stage: Stage::Pressing, snapshot, ..state };
    lemma_run_from_press(pressing, loaded, faults);
    assert(run.requests =~= swap_and_paste(state.text, state.platform) + closing(snapshot));
}

/// Asked to hide, the surface is as `surface_after` says.
proof fn lemma_hidden(desktop: Desktop, faults: Faults)
    ensures
        surface_after(desktop, faults) == if faults.surface_stuck {
            desktop.surface
        } else {
            desktop.surface.after_all(plan_for(Visibility::Hidden))
        },
        desktop.surface.well_formed() ==> surface_after(desktop, faults).well_formed(),
{
    if desktop.surface.exists {
        law_plan_reaches_target(desktop.surface, Visibility::Hidden);
    } else {
        let ops = plan_for(Visibility::Hidden);
        assert(ops.drop_last().len() == 0);
        assert(desktop.surface.after_all(ops.drop_last()) == desktop.surface);
    }
}

/// The whole of a run in which the clipboard can be opened and written and
/// the emitter can be had.
proof fn lemma_unhindered_run(text: Seq<char>, platform: Platform, desktop: Desktop, faults: Faults)
    requires
        expected_failure(faults) is None,
    ensures
        ({
            let run = inject(text, platform, desktop, faults);
            let snapshot = snapshot_of(desktop, faults);
            let pasted = desktop.delivered.push(text);
            &&& run.result == Ok::<(), FailureView>(())
            &&& run.requests == opening() + swap_and_paste(text, platform) + closing(snapshot)
            &&& run.desktop.strokes == desktop.strokes + chord(platform.modifier())
            &&& run.desktop.surface == surface_after(desktop, faults)
            &&& run.desktop.clipboard == match snapshot {
                Some(previous) if faults.restore is None => Some(previous),
                _ => Some(text),
            }
            &&& run.desktop.delivered == desktop.delivered || run.desktop.delivered == pasted
            &&& ready_for_paste(desktop, faults, platform) ==> run.desktop.delivered == pasted
                && !run.desktop.modifier_down
        }),
{
    reveal_with_fuel(drive, 4);
    let run = inject(text, platform, desktop, faults);
    let snapshot = snapshot_of(desktop, faults);
    lemma_hidden(desktop, faults);
    let hidden = Desktop { surface: surface_after(desktop, faults), ..desktop };
    let reading = InjectionView::initial(text, platform).at(Stage::ReadingClipboard);
    lemma_run_from_read(reading, hidden, faults);
    lemma_chord(Desktop { clipboard: Some(text), ..hidden }, platform);
    assert(run.requests =~= opening() + swap_and_paste(text, platform) + closing(snapshot));
}

} // verus!
