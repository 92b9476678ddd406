use voiceflow::surface::{hide_surface, show_surface, toggle_main_window, SurfaceReport, WindowOp};

/// A window in memory.
#[derive(Clone, Copy, Debug, PartialEq, Eq)]
struct FakeWindow {
    visible: bool,
    minimized: bool,
    focused: bool,
}

impl FakeWindow {
    fn report(&self) -> SurfaceReport {
        if self.visible {
            SurfaceReport::Visible
        } else {
            SurfaceReport::Hidden
        }
    }

    fn carry_out(&mut self, ops: &[WindowOp]) {
        for op in ops {
            match op {
                WindowOp::Show => self.visible = true,
                WindowOp::Unminimize => self.minimized = false,
                WindowOp::Focus => self.focused = self.visible && !self.minimized,
                WindowOp::Hide => {
                    self.visible = false;
                    self.focused = false;
                }
            }
        }
    }
}

#[test]
fn visible_surface_is_hidden_by_a_toggle() {
    assert_eq!(toggle_main_window(SurfaceReport::Visible), vec![WindowOp::Hide]);
}

#[test]
fn hidden_surface_is_shown_raised_and_focused_by_a_toggle() {
    assert_eq!(
        toggle_main_window(SurfaceReport::Hidden),
        vec![WindowOp::Show, WindowOp::Unminimize, WindowOp::Focus]
    );
}

#[test]
fn surface_of_unknown_visibility_counts_as_hidden() {
    assert_eq!(
        toggle_main_window(SurfaceReport::Unreadable),
        vec![WindowOp::Show, WindowOp::Unminimize, WindowOp::Focus]
    );
}

#[test]
fn missing_surface_is_left_alone() {
    assert_eq!(toggle_main_window(SurfaceReport::Missing), Vec::<WindowOp>::new());
}

#[test]
fn show_and_hide_are_the_two_halves_of_a_toggle() {
    assert_eq!(show_surface(), toggle_main_window(SurfaceReport::Hidden));
    assert_eq!(hide_surface(), toggle_main_window(SurfaceReport::Visible));
    assert_eq!(hide_surface(), vec![WindowOp::Hide]);
}

#[test]
fn toggles_alternate_from_the_initial_state() {
    for start in [false, true] {
        let mut window = FakeWindow { visible: start, minimized: true, focused: false };
        for toggle in 1..=10 {
            let ops = toggle_main_window(window.report());
            window.carry_out(&ops);
            assert_eq!(window.visible, start == (toggle % 2 == 0));
            assert_eq!(window.focused, window.visible);
            if window.visible {
                assert!(!window.minimized);
            }
        }
    }
}

#[test]
fn refused_toggle_is_made_again() {
    let mut window = FakeWindow { visible: true, minimized: false, focused: true };
    let refused = toggle_main_window(window.report());
    let again = toggle_main_window(window.report());
    assert_eq!(refused, again);
    assert_eq!(again, vec![WindowOp::Hide]);
    window.carry_out(&again);
    assert!(!window.visible);
    let next = toggle_main_window(window.report());
    assert_eq!(next, vec![WindowOp::Show, WindowOp::Unminimize, WindowOp::Focus]);
}

#[test]
fn visibility_flips_once_per_toggle_that_was_carried_out() {
    let honoured = [true, false, false, true, true, false, true];
    let mut window = FakeWindow { visible: false, minimized: false, focused: false };
    let mut carried_out = 0;
    for honour in honoured {
        let ops = toggle_main_window(window.report());
        if honour {
            window.carry_out(&ops);
            carried_out += 1;
        }
        assert_eq!(window.visible, carried_out % 2 == 1);
    }
    assert_eq!(carried_out, 4);
    assert!(!window.visible);
}

#[test]
fn hiding_a_hidden_surface_changes_nothing() {
    let mut window = FakeWindow { visible: false, minimized: true, focused: false };
    let before = window;
    window.carry_out(&hide_surface());
    assert_eq!(window, before);
    window.carry_out(&show_surface());
    let shown = window;
    window.carry_out(&show_surface());
    assert_eq!(window, shown);
    assert_eq!(shown, FakeWindow { visible: true, minimized: false, focused: true });
}
