use voiceflow::error::{ErrorKind, Failure};
use voiceflow::frontend::{
    on_hotkey_registration, on_menu_event, on_shortcut, on_tray_event, toggle_hotkey, ButtonState,
    Command, Hotkey, HotkeyReport, KeyCode, KeyState, MouseButton, TrayEvent, QUIT_MENU_ID,
    SURFACE_LABEL,
};
use voiceflow::lifecycle::{on_close_requested, quit_plan, CloseReaction, QuitStep, QUIT_EXIT_CODE};
use voiceflow::surface::WindowOp;

/// A process in memory: the flag, whether it still runs, and its window.
struct FakeProcess {
    quitting: bool,
    alive: bool,
    visible: bool,
}

impl FakeProcess {
    fn close_requested(&mut self) {
        let reaction = on_close_requested(self.quitting);
        if reaction.prevent_close {
            for op in reaction.ops {
                if op == WindowOp::Hide {
                    self.visible = false;
                }
            }
        } else {
            self.alive = false;
        }
    }

    fn menu_selected(&mut self, id: &str) {
        if on_menu_event(id) == Command::Quit {
            for step in quit_plan() {
                match step {
                    QuitStep::RaiseQuitting => self.quitting = true,
                    QuitStep::ExitProcess { .. } => self.close_requested(),
                }
            }
        }
    }
}

#[test]
fn close_request_hides_the_surface_while_not_quitting() {
    assert_eq!(
        on_close_requested(false),
        CloseReaction { prevent_close: true, ops: vec![WindowOp::Hide] }
    );
}

#[test]
fn close_request_goes_ahead_when_quitting() {
    assert_eq!(on_close_requested(true), CloseReaction { prevent_close: false, ops: vec![] });
}

#[test]
fn quit_raises_the_flag_before_it_exits() {
    assert_eq!(
        quit_plan(),
        vec![QuitStep::RaiseQuitting, QuitStep::ExitProcess { code: 0 }]
    );
    assert_eq!(QUIT_EXIT_CODE, 0);
}

#[test]
fn every_close_request_before_a_quit_keeps_the_process_alive() {
    let mut process = FakeProcess { quitting: false, alive: true, visible: true };
    for _ in 0..5 {
        process.close_requested();
        assert!(process.alive);
        assert!(!process.visible);
        assert!(!process.quitting);
        process.visible = true;
    }
}

#[test]
fn close_request_after_a_quit_ends_the_process() {
    let mut process = FakeProcess { quitting: false, alive: true, visible: true };
    process.close_requested();
    assert!(process.alive);
    process.visible = true;
    process.menu_selected("quit");
    assert!(process.quitting);
    assert!(!process.alive);
    assert!(process.visible);
}

#[test]
fn other_menu_items_do_not_quit() {
    let mut process = FakeProcess { quitting: false, alive: true, visible: true };
    process.menu_selected("settings");
    process.menu_selected("");
    process.menu_selected("Quit");
    process.menu_selected("quit ");
    assert!(!process.quitting);
    assert!(process.alive);
}

#[test]
fn only_the_quit_item_quits() {
    assert_eq!(QUIT_MENU_ID, "quit");
    assert_eq!(on_menu_event("quit"), Command::Quit);
    assert_eq!(on_menu_event(QUIT_MENU_ID), Command::Quit);
    assert_eq!(on_menu_event("qui"), Command::Nothing);
    assert_eq!(on_menu_event("quit!"), Command::Nothing);
    assert_eq!(on_menu_event("QUIT"), Command::Nothing);
    assert_eq!(on_menu_event(""), Command::Nothing);
}

#[test]
fn surface_is_the_main_window() {
    assert_eq!(SURFACE_LABEL, "main");
}

#[test]
fn left_click_released_on_the_tray_toggles() {
    let click = TrayEvent::Click { button: MouseButton::Left, state: ButtonState::Up };
    assert_eq!(on_tray_event(click), Command::ToggleSurface);
}

#[test]
fn other_tray_events_do_nothing() {
    for button in [MouseButton::Left, MouseButton::Right, MouseButton::Middle] {
        for state in [ButtonState::Up, ButtonState::Down] {
            let expected = if button == MouseButton::Left && state == ButtonState::Up {
                Command::ToggleSurface
            } else {
                Command::Nothing
            };
            assert_eq!(on_tray_event(TrayEvent::Click { button, state }), expected);
        }
    }
    assert_eq!(on_tray_event(TrayEvent::Other), Command::Nothing);
}

#[test]
fn toggle_hotkey_is_shift_and_space() {
    assert_eq!(
        toggle_hotkey(),
        Hotkey { shift: true, control: false, alt: false, meta: false, code: KeyCode::Space }
    );
}

#[test]
fn hotkey_toggles_when_it_goes_down() {
    assert_eq!(on_shortcut(toggle_hotkey(), KeyState::Pressed), Command::ToggleSurface);
    assert_eq!(on_shortcut(toggle_hotkey(), KeyState::Released), Command::Nothing);
}

#[test]
fn other_hotkeys_do_nothing() {
    let base = toggle_hotkey();
    let others = [
        Hotkey { shift: false, ..base },
        Hotkey { control: true, ..base },
        Hotkey { alt: true, ..base },
        Hotkey { meta: true, ..base },
        Hotkey { code: KeyCode::Other, ..base },
    ];
    for hotkey in others {
        assert_eq!(on_shortcut(hotkey, KeyState::Pressed), Command::Nothing);
        assert_eq!(on_shortcut(hotkey, KeyState::Released), Command::Nothing);
    }
}

#[test]
fn registered_hotkey_is_reported() {
    assert_eq!(
        on_hotkey_registration(None),
        HotkeyReport {
            proceed: true,
            failure: None,
            notice: String::from("Global shortcut Shift+Space registered successfully"),
        }
    );
}

#[test]
fn refused_hotkey_is_a_warning_and_startup_goes_on() {
    let report = on_hotkey_registration(Some(String::from("already taken")));
    assert!(report.proceed);
    assert_eq!(
        report.failure,
        Some(Failure {
            kind: ErrorKind::HotkeyRegistrationFailed,
            reason: String::from("already taken"),
        })
    );
    assert_eq!(
        report.notice,
        "Warning: Could not register global shortcut: already taken. It may already be registered by another application."
    );
}
