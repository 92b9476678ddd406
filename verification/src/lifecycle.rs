//! The lifecycle of the process: a close request on the surface hides it and
//! keeps the process alive, until a real quit was asked for.
//!
//! The quitting flag itself is the caller's to keep: one flag for the whole
//! process, false at the start, raised by the quit plan and never lowered,
//! read and written as one indivisible, totally ordered access. This module
//! decides what follows from its value.

use vstd::prelude::*;
use crate::surface::{hide_surface, plan_for, Surface, Visibility, WindowOp};

verus! {

/// The exit code of a quit that the user asked for.
pub const QUIT_EXIT_CODE: i32 = 0;

/// What to do about a close request.
#[derive(Debug, PartialEq, Eq)]
pub struct CloseReaction {
    /// Whether the close is to be suppressed.
    pub prevent_close: bool,
    /// What is asked of the window system in its place.
    pub ops: Vec<WindowOp>,
}

/// The mathematical value of a [`CloseReaction`].
pub struct CloseReactionView {
    pub prevent_close: bool,
    pub ops: Seq<WindowOp>,
}

impl View for CloseReaction {
    type V = CloseReactionView;

    open spec fn view(&self) -> CloseReactionView {
        CloseReactionView { prevent_close: self.prevent_close, ops: self.ops@ }
    }
}

/// The reaction to a close request under the given flag: while the process
/// is not quitting the close is suppressed and the surface hidden; once it
/// is, the close goes ahead untouched.
pub open spec fn close_reaction(quitting: bool) -> CloseReactionView {
    if quitting {
        CloseReactionView { prevent_close: false, ops: Seq::empty() }
    } else {
        CloseReactionView { prevent_close: true, ops: plan_for(Visibility::Hidden) }
    }
}

/// Decides a close request on the surface from the quitting flag as it is
/// when the request arrives.
pub fn on_close_requested(quitting: bool) -> (reaction: CloseReaction)
    ensures
        reaction@ == close_reaction(quitting),
{
    if quitting {
        CloseReaction { prevent_close: false, ops: Vec::new() }
    } else {
        CloseReaction { prevent_close: true, ops: hide_surface() }
    }
}

/// One step of a quit.
#[derive(Clone, Copy, Debug, PartialEq, Eq, Structural)]
pub enum QuitStep {
    /// Set the quitting flag.
    RaiseQuitting,
    /// Ask the runtime to end the process.
    ExitProcess { code: i32 },
}

/// The steps of a quit, in the order in which they must be taken.
pub open spec fn quit_steps() -> Seq<QuitStep> {
    seq![QuitStep::RaiseQuitting, QuitStep::ExitProcess { code: QUIT_EXIT_CODE }]
}

/// A quit: the flag is raised before the exit is asked for, so that every
/// close request that the exit brings about finds it raised.
pub fn quit_plan() -> (steps: Vec<QuitStep>)
    ensures
        steps@ == quit_steps(),
{
    vec![QuitStep::RaiseQuitting, QuitStep::ExitProcess { code: QUIT_EXIT_CODE }]
}

/// What the lifecycle reacts to.
pub enum Signal {
    /// The surface was asked to close.
    CloseRequested,
    /// The user chose to quit.
    QuitSelected,
}

/// The process as far as its lifecycle goes: the model against which the
/// reactions are judged.
pub struct Process {
    pub quitting: bool,
    pub alive: bool,
    pub surface: Surface,
}

impl Process {
    /// The process after one step of a quit. The exit takes the surface down
    /// by way of close requests, which are signals of their own.
    pub open spec fn after_step(self, step: QuitStep) -> Process {
        match step {
            QuitStep::RaiseQuitting => Process { quitting: true, ..self },
            QuitStep::ExitProcess { code } => self,
        }
    }

    /// The process after the steps of a quit plan, in order.
    pub open spec fn after_steps(self, steps: Seq<QuitStep>) -> Process
        decreases steps.len(),
    {
        if steps.len() == 0 {
            self
        } else {
            self.after_steps(steps.drop_last()).after_step(steps.last())
        }
    }

    /// The process after `signal`. A close that is let through ends the
    /// process; one that is suppressed leaves it running with the surface
    /// as the reaction's requests make it. A process that has ended takes no
    /// more signals.
    pub open spec fn after(self, signal: Signal) -> Process {
        if !self.alive {
            self
        } else {
            match signal {
                Signal::QuitSelected => self.after_steps(quit_steps()),
                Signal::CloseRequested => {
                    let reaction = close_reaction(self.quitting);
                    if reaction.prevent_close {
                        Process { surface: self.surface.after_all(reaction.ops), ..self }
                    } else {
                        Process { alive: false, ..self }
                    }
                },
            }
        }
    }

    /// The process after `signals`, in order.
    pub open spec fn after_all(self, signals: Seq<Signal>) -> Process
        decreases signals.len(),
    {
        if signals.len() == 0 {
            self
        } else {
            self.after_all(signals.drop_last()).after(signals.last())
        }
    }
}

/// A quit raises the flag and changes nothing else.
proof fn lemma_quit(process: Process)
    ensures
        process.after_steps(quit_steps()) == (Process { quitting: true, ..process }),
{
    let steps = quit_steps();
    let first = steps.drop_last();
    assert(first.drop_last().len() == 0);
    assert(process.after_steps(first.drop_last()) == process);
    assert(process.after_steps(first) == process.after_step(QuitStep::RaiseQuitting));
}

/// The quitting flag only ever goes from false to true: once raised it stays
/// raised, whatever signals follow.
pub proof fn law_quitting_is_never_lowered(process: Process, signals: Seq<Signal>)
    requires
        process.quitting,
    ensures
        process.after_all(signals).quitting,
    decreases signals.len(),
{
    if signals.len() > 0 {
        law_quitting_is_never_lowered(process, signals.drop_last());
        lemma_quit(process.after_all(signals.drop_last()));
    }
}

/// Until a quit is selected, every close request leaves the process alive
/// and an existing surface hidden, however many there are.
pub proof fn law_close_hides_until_quit(process: Process, signals: Seq<Signal>)
    requires
        process.alive,
        !process.quitting,
        forall|i: int| 0 <= i < signals.len() ==> signals[i] is CloseRequested,
    ensures
        process.after_all(signals).alive,
        !process.after_all(signals).quitting,
        signals.len() > 0 && process.surface.exists ==> !process.after_all(
            signals,
        ).surface.visible,
    decreases signals.len(),
{
    if signals.len() > 0 {
        let before = process.after_all(signals.drop_last());
        law_close_hides_until_quit(process, signals.drop_last());
        lemma_surface_stays(process, signals.drop_last());
        if before.surface.exists {
            crate::surface::law_plan_reaches_target(before.surface, Visibility::Hidden);
        }
    }
}

/// No signal makes or removes the surface.
proof fn lemma_surface_stays(process: Process, signals: Seq<Signal>)
    ensures
        process.after_all(signals).surface.exists == process.surface.exists,
    decreases signals.len(),
{
    if signals.len() > 0 {
        let before = process.after_all(signals.drop_last());
        lemma_surface_stays(process, signals.drop_last());
        lemma_quit(before);
        if before.surface.exists {
            crate::surface::law_plan_reaches_target(before.surface, Visibility::Hidden);
        } else {
            let ops = plan_for(Visibility::Hidden);
            assert(ops.drop_last().len() == 0);
            assert(before.surface.after_all(ops.drop_last()) == before.surface);
        }
    }
}

/// Once a quit was selected, the next close request ends the process, and
/// the surface is not hidden in its place.
pub proof fn law_close_after_quit_ends_the_process(process: Process, signals: Seq<Signal>)
    requires
        process.after_all(signals).alive,
    ensures
        ({
            let quit = process.after_all(signals.push(Signal::QuitSelected));
            let closed = process.after_all(
                signals.push(Signal::QuitSelected).push(Signal::CloseRequested),
            );
            &&& quit.alive
            &&& quit.quitting
            &&& !closed.alive
            &&& closed.surface == quit.surface
        }),
{
    let one = signals.push(Signal::QuitSelected);
    let two = one.push(Signal::CloseRequested);
    assert(one.drop_last() =~= signals);
    assert(two.drop_last() =~= one);
    lemma_quit(process.after_all(signals));
}

} // verus!
