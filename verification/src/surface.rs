//! The visibility controller: whether the interaction surface is shown, and
//! what to ask of the window system to change that.
//!
//! The controller keeps no record of its own. Each toggle decides from what
//! the window system reports at that moment, so a request that the window
//! system refused is simply made again by the next toggle.

use vstd::prelude::*;

verus! {

/// Whether the interaction surface is on screen.
#[derive(Clone, Copy, Debug, PartialEq, Eq, Structural)]
pub enum Visibility {
    Shown,
    Hidden,
}

impl Visibility {
    /// The other of the two.
    pub open spec fn flipped(self) -> Visibility {
        match self {
            Visibility::Shown => Visibility::Hidden,
            Visibility::Hidden => Visibility::Shown,
        }
    }
}

/// One request to the window system. Each is made once and its outcome is
/// not looked at.
#[derive(Clone, Copy, Debug, PartialEq, Eq, Structural)]
pub enum WindowOp {
    Show,
    Unminimize,
    Focus,
    Hide,
}

/// What the window system answered when asked about the surface.
#[derive(Clone, Copy, Debug, PartialEq, Eq, Structural)]
pub enum SurfaceReport {
    /// There is no such window.
    Missing,
    /// The window exists but its visibility could not be read.
    Unreadable,
    Visible,
    Hidden,
}

impl SurfaceReport {
    /// The visibility the controller goes by: a surface whose visibility
    /// cannot be read counts as hidden, a missing one has none.
    pub open spec fn visibility(self) -> Option<Visibility> {
        match self {
            SurfaceReport::Missing => None,
            SurfaceReport::Visible => Some(Visibility::Shown),
            SurfaceReport::Unreadable | SurfaceReport::Hidden => Some(Visibility::Hidden),
        }
    }
}

/// The requests that bring the surface to `target`.
pub open spec fn plan_for(target: Visibility) -> Seq<WindowOp> {
    match target {
        Visibility::Shown => seq![WindowOp::Show, WindowOp::Unminimize, WindowOp::Focus],
        Visibility::Hidden => seq![WindowOp::Hide],
    }
}

/// The requests of one toggle: towards the opposite of the reported
/// visibility, and none for a missing surface.
pub open spec fn toggle_plan(report: SurfaceReport) -> Seq<WindowOp> {
    match report.visibility() {
        None => Seq::empty(),
        Some(now) => plan_for(now.flipped()),
    }
}

/// Shows the surface, lifts it out of a minimized state and gives it the
/// input focus, in that order.
pub fn show_surface() -> (ops: Vec<WindowOp>)
    ensures
        ops@ == plan_for(Visibility::Shown),
{
    vec![WindowOp::Show, WindowOp::Unminimize, WindowOp::Focus]
}

/// Hides the surface.
pub fn hide_surface() -> (ops: Vec<WindowOp>)
    ensures
        ops@ == plan_for(Visibility::Hidden),
{
    vec![WindowOp::Hide]
}

/// One toggle: hides a surface reported visible, shows any other that
/// exists, and asks nothing for a missing one.
pub fn toggle_main_window(report: SurfaceReport) -> (ops: Vec<WindowOp>)
    ensures
        ops@ == toggle_plan(report),
{
    match report {
        SurfaceReport::Missing => Vec::new(),
        SurfaceReport::Visible => hide_surface(),
        SurfaceReport::Unreadable | SurfaceReport::Hidden => show_surface(),
    }
}

/// The surface as the window system holds it: the model against which the
/// controller's requests are judged.
pub struct Surface {
    pub exists: bool,
    pub visible: bool,
    pub minimized: bool,
    pub focused: bool,
}

impl Surface {
    /// Only a surface that is on screen and not minimized can hold the focus.
    pub open spec fn well_formed(self) -> bool {
        self.focused ==> self.exists && self.visible && !self.minimized
    }

    pub open spec fn visibility(self) -> Visibility {
        if self.visible {
            Visibility::Shown
        } else {
            Visibility::Hidden
        }
    }

    /// What a window system that answers truthfully reports of the surface.
    pub open spec fn report(self) -> SurfaceReport {
        if !self.exists {
            SurfaceReport::Missing
        } else if self.visible {
            SurfaceReport::Visible
        } else {
            SurfaceReport::Hidden
        }
    }

    /// The surface after the window system has carried out `op`.
    pub open spec fn after(self, op: WindowOp) -> Surface {
        if !self.exists {
            self
        } else {
            match op {
                WindowOp::Show => Surface { visible: true, ..self },
                WindowOp::Unminimize => Surface { minimized: false, ..self },
                WindowOp::Focus => Surface { focused: self.visible && !self.minimized, ..self },
                WindowOp::Hide => Surface { visible: false, focused: false, ..self },
            }
        }
    }

    /// The surface after the window system has carried out `ops` in order.
    pub open spec fn after_all(self, ops: Seq<WindowOp>) -> Surface
        decreases ops.len(),
    {
        if ops.len() == 0 {
            self
        } else {
            self.after_all(ops.drop_last()).after(ops.last())
        }
    }

    /// The surface after one toggle whose requests were all carried out.
    pub open spec fn toggled(self) -> Surface {
        self.after_all(toggle_plan(self.report()))
    }

    /// The surface after one toggle per entry of `honoured`: where the entry
    /// is true the window system carried the requests out, where it is false
    /// it refused them and the surface stayed as it was.
    pub open spec fn after_toggles(self, honoured: Seq<bool>) -> Surface
        decreases honoured.len(),
    {
        if honoured.len() == 0 {
            self
        } else {
            let before = self.after_toggles(honoured.drop_last());
            if honoured.last() {
                before.toggled()
            } else {
                before
            }
        }
    }
}

/// How many entries of `honoured` are true.
pub open spec fn honoured_count(honoured: Seq<bool>) -> nat
    decreases honoured.len(),
{
    if honoured.len() == 0 {
        0
    } else {
        honoured_count(honoured.drop_last()) + if honoured.last() {
            1nat
        } else {
            0nat
        }
    }
}

/// Carried out, the requests of `plan_for` bring an existing surface to the
/// target: shown, it is also out of the minimized state and has the focus;
/// hidden, it has lost the focus. Nothing else changes.
pub proof fn law_plan_reaches_target(surface: Surface, target: Visibility)
    requires
        surface.exists,
    ensures
        surface.after_all(plan_for(target)) == match target {
            Visibility::Shown => Surface {
                exists: true,
                visible: true,
                minimized: false,
                focused: true,
            },
            Visibility::Hidden => Surface { visible: false, focused: false, ..surface },
        },
        surface.after_all(plan_for(target)).visibility() == target,
        surface.after_all(plan_for(target)).well_formed(),
{
    match target {
        Visibility::Shown => {
            let ops = plan_for(Visibility::Shown);
            let two = ops.drop_last();
            let one = two.drop_last();
            assert(one.drop_last().len() == 0);
            assert(surface.after_all(one.drop_last()) == surface);
            assert(surface.after_all(one) == surface.after(WindowOp::Show));
            assert(surface.after_all(two) == surface.after(WindowOp::Show).after(
                WindowOp::Unminimize,
            ));
        },
        Visibility::Hidden => {
            let ops = plan_for(Visibility::Hidden);
            assert(ops.drop_last().len() == 0);
            assert(surface.after_all(ops.drop_last()) == surface);
        },
    }
}

/// Hiding a hidden surface and showing a shown, focused one change nothing.
pub proof fn law_plans_are_idempotent(surface: Surface, target: Visibility)
    requires
        surface.exists,
        surface.well_formed(),
    ensures
        surface.after_all(plan_for(target)).after_all(plan_for(target)) == surface.after_all(
            plan_for(target),
        ),
        surface.visibility() == Visibility::Hidden ==> surface.after_all(
            plan_for(Visibility::Hidden),
        ) == surface,
{
    law_plan_reaches_target(surface, target);
    law_plan_reaches_target(surface.after_all(plan_for(target)), target);
    law_plan_reaches_target(surface, Visibility::Hidden);
}

/// A toggle that the window system carries out flips the visibility of an
/// existing surface, and leaves a missing one alone.
pub proof fn law_toggle_flips(surface: Surface)
    ensures
        surface.exists ==> surface.toggled().visibility() == surface.visibility().flipped(),
        surface.exists ==> surface.toggled().exists,
        !surface.exists ==> surface.toggled() == surface,
{
    if surface.exists {
        law_plan_reaches_target(surface, surface.visibility().flipped());
    } else {
        assert(toggle_plan(surface.report()).len() == 0);
    }
}

/// Over any sequence of toggles the visibility of an existing surface has
/// been flipped once per toggle that the window system carried out. Every
/// toggle decides from the surface as it then is, so a refused toggle leaves
/// nothing behind that could make a later one go the wrong way.
pub proof fn law_toggles_follow_the_surface(surface: Surface, honoured: Seq<bool>)
    requires
        surface.exists,
    ensures
        surface.after_toggles(honoured).exists,
        surface.after_toggles(honoured).visible == if honoured_count(honoured) % 2 == 0 {
            surface.visible
        } else {
            !surface.visible
        },
    decreases honoured.len(),
{
    if honoured.len() > 0 {
        law_toggles_follow_the_surface(surface, honoured.drop_last());
        law_toggle_flips(surface.after_toggles(honoured.drop_last()));
    }
}

/// With a window system that carries out every request, the surface is shown
/// and hidden in strict alternation, starting from its initial state.
pub proof fn law_toggle_alternates(surface: Surface, toggles: nat)
    requires
        surface.exists,
    ensures
        surface.after_toggles(Seq::new(toggles, |i: int| true)).visible == if toggles % 2 == 0 {
            surface.visible
        } else {
            !surface.visible
        },
{
    let all = Seq::new(toggles, |i: int| true);
    lemma_all_honoured(toggles);
    law_toggles_follow_the_surface(surface, all);
}

proof fn lemma_all_honoured(toggles: nat)
    ensures
        honoured_count(Seq::new(toggles, |i: int| true)) == toggles,
    decreases toggles,
{
    let all = Seq::new(toggles, |i: int| true);
    if toggles > 0 {
        lemma_all_honoured((toggles - 1) as nat);
        assert(all.drop_last() =~= Seq::new((toggles - 1) as nat, |i: int| true));
    }
}

/// A toggle that the window system refused is made again: the next toggle
/// asks for the same requests, whatever was asked before.
pub proof fn law_refused_toggle_is_repeated(surface: Surface, honoured: Seq<bool>)
    ensures
        surface.after_toggles(honoured.push(false)) == surface.after_toggles(honoured),
        toggle_plan(surface.after_toggles(honoured.push(false)).report()) == toggle_plan(
            surface.after_toggles(honoured).report(),
        ),
{
    assert(honoured.push(false).drop_last() =~= honoured);
}

} // verus!
