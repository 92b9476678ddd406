//! What the front end's events mean: the tray icon, its menu and the global
//! hotkey each come down to one command for the core.

use vstd::prelude::*;
use vstd::string::*;
use crate::error::{ErrorKind, Failure, FailureView};

verus! {

/// The label of the window that is the interaction surface.
pub const SURFACE_LABEL: &'static str = "main";

/// The id of the tray menu's quit item.
pub const QUIT_MENU_ID: &'static str = "quit";

/// What an event asks of the core.
#[derive(Clone, Copy, Debug, PartialEq, Eq, Structural)]
pub enum Command {
    /// Toggle the surface.
    ToggleSurface,
    /// Quit for good.
    Quit,
    /// The event is none of the core's.
    Nothing,
}

/// A selection in the tray menu quits where it is the quit item, and else
/// means nothing.
pub fn on_menu_event(id: &str) -> (command: Command)
    ensures
        command == if id@ == QUIT_MENU_ID@ {
            Command::Quit
        } else {
            Command::Nothing
        },
{
    if id.to_owned() == QUIT_MENU_ID.to_owned() {
        Command::Quit
    } else {
        Command::Nothing
    }
}

#[derive(Clone, Copy, Debug, PartialEq, Eq, Structural)]
pub enum MouseButton {
    Left,
    Right,
    Middle,
}

#[derive(Clone, Copy, Debug, PartialEq, Eq, Structural)]
pub enum ButtonState {
    Up,
    Down,
}

/// An event on the tray icon.
#[derive(Clone, Copy, Debug, PartialEq, Eq, Structural)]
pub enum TrayEvent {
    Click { button: MouseButton, state: ButtonState },
    /// A double click, or the pointer entering, moving over or leaving the
    /// icon.
    Other,
}

/// The one tray event that toggles: the left button coming up.
pub open spec fn toggling_click() -> TrayEvent {
    TrayEvent::Click { button: MouseButton::Left, state: ButtonState::Up }
}

/// A left click on the tray icon, taken when the button comes up, toggles
/// the surface. The right button is the menu's.
pub fn on_tray_event(event: TrayEvent) -> (command: Command)
    ensures
        command == if event == toggling_click() {
            Command::ToggleSurface
        } else {
            Command::Nothing
        },
{
    match event {
        TrayEvent::Click { button: MouseButton::Left, state: ButtonState::Up } => {
            Command::ToggleSurface
        },
        _ => Command::Nothing,
    }
}

/// The key of a hotkey, as far as the core tells keys apart.
#[derive(Clone, Copy, Debug, PartialEq, Eq, Structural)]
pub enum KeyCode {
    Space,
    Other,
}

/// A key with the modifiers held with it.
#[derive(Clone, Copy, Debug, PartialEq, Eq, Structural)]
pub struct Hotkey {
    pub shift: bool,
    pub control: bool,
    pub alt: bool,
    pub meta: bool,
    pub code: KeyCode,
}

#[derive(Clone, Copy, Debug, PartialEq, Eq, Structural)]
pub enum KeyState {
    Pressed,
    Released,
}

/// Shift and Space: a chord of modifiers alone cannot be registered on every
/// system.
pub open spec fn toggle_chord() -> Hotkey {
    Hotkey { shift: true, control: false, alt: false, meta: false, code: KeyCode::Space }
}

/// The global hotkey that toggles the surface.
pub fn toggle_hotkey() -> (hotkey: Hotkey)
    ensures
        hotkey == toggle_chord(),
{
    Hotkey { shift: true, control: false, alt: false, meta: false, code: KeyCode::Space }
}

/// The toggle hotkey toggles the surface when it goes down; its release and
/// every other hotkey mean nothing.
pub fn on_shortcut(hotkey: Hotkey, state: KeyState) -> (command: Command)
    ensures
        command == if hotkey == toggle_chord() && state == KeyState::Pressed {
            Command::ToggleSurface
        } else {
            Command::Nothing
        },
{
    if hotkey == toggle_hotkey() && state == KeyState::Pressed {
        Command::ToggleSurface
    } else {
        Command::Nothing
    }
}

/// What startup makes of the attempt to register the hotkey.
#[derive(Debug, PartialEq, Eq)]
pub struct HotkeyReport {
    /// Whether startup goes on. It always does.
    pub proceed: bool,
    /// The failure, where the hotkey could not be registered.
    pub failure: Option<Failure>,
    /// The line for the log.
    pub notice: String,
}

/// The mathematical value of a [`HotkeyReport`].
pub struct HotkeyReportView {
    pub proceed: bool,
    pub failure: Option<FailureView>,
    pub notice: Seq<char>,
}

impl View for HotkeyReport {
    type V = HotkeyReportView;

    open spec fn view(&self) -> HotkeyReportView {
        HotkeyReportView {
            proceed: self.proceed,
            failure: match self.failure {
                Some(failure) => Some(failure@),
                None => None,
            },
            notice: self.notice@,
        }
    }
}

/// The report on a registration that was refused with `refusal`, or that
/// went through where there is none. A refusal is a warning and no more: the
/// hotkey may be taken by another application, and the program is of use
/// without it.
pub open spec fn hotkey_report(refusal: Option<Seq<char>>) -> HotkeyReportView {
    match refusal {
        None => HotkeyReportView {
            proceed: true,
            failure: None,
            notice: "Global shortcut Shift+Space registered successfully"@,
        },
        Some(reason) => HotkeyReportView {
            proceed: true,
            failure: Some(FailureView { kind: ErrorKind::HotkeyRegistrationFailed, reason }),
            notice: "Warning: Could not register global shortcut: "@ + reason
                + ". It may already be registered by another application."@,
        },
    }
}

/// Judges the attempt to register the toggle hotkey.
pub fn on_hotkey_registration(refusal: Option<String>) -> (report: HotkeyReport)
    ensures
        report@ == hotkey_report(
            match refusal {
                Some(reason) => Some(reason@),
                None => None,
            },
        ),
{
    match refusal {
        None => HotkeyReport {
            proceed: true,
            failure: None,
            notice: String::from_str("Global shortcut Shift+Space registered successfully"),
        },
        Some(reason) => {
            let mut notice = String::from_str("Warning: Could not register global shortcut: ");
            notice.append(reason.as_str());
            notice.append(". It may already be registered by another application.");
            HotkeyReport {
                proceed: true,
                failure: Some(Failure { kind: ErrorKind::HotkeyRegistrationFailed, reason }),
                notice,
            }
        },
    }
}

} // verus!
