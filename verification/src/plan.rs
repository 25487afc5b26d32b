//! Plans: the steps a reaction consists of, and what becomes of the process
//! when a step cannot be carried out.
//!
//! The steps of a plan are performed in order. Before each step that needs the
//! main window the window is looked up by its label. A step ends in an
//! [`Outcome`]; the plan's two policies turn that outcome into a [`Verdict`].
//! Where the verdict is to abort, the program stops at once and the remaining
//! steps are not performed.

use crate::geometry::PhysicalSize;
use vstd::prelude::*;

verus! {

/// A message sent to the front end that runs inside the main window.
#[derive(Clone, Copy, Debug, PartialEq, Eq)]
pub enum FrontendEvent {
    /// Asks the front end to open its settings view.
    OpenSettings,
}

impl FrontendEvent {
    /// The name under which the front end listens for the message.
    pub open spec fn name_of(self) -> Seq<char> {
        match self {
            FrontendEvent::OpenSettings => "open-settings"@,
        }
    }

    /// The name under which the message is sent.
    pub fn name(self) -> (name: &'static str)
        ensures
            name@ == self.name_of(),
    {
        match self {
            FrontendEvent::OpenSettings => "open-settings",
        }
    }
}

/// One thing to do to the main window or to the process.
#[derive(Clone, Copy, Debug, PartialEq, Eq)]
pub enum Step {
    /// Make the main window visible.
    ShowWindow,
    /// Give the main window the input focus.
    FocusWindow,
    /// Send a message, without payload, to the front end in the main window.
    Emit(FrontendEvent),
    /// Forbid the main window to become smaller than the given size.
    SetMinSize(PhysicalSize),
    /// Ask the process to end with the given exit code.
    Exit(i32),
}

impl Step {
    /// Whether the step acts on the main window, which then has to be looked
    /// up first.
    pub open spec fn acts_on_window(self) -> bool {
        !(self is Exit)
    }

    /// Whether the step acts on the main window.
    pub fn needs_window(&self) -> (needs: bool)
        ensures
            needs == self.acts_on_window(),
    {
        match self {
            Step::Exit(_) => false,
            _ => true,
        }
    }
}

/// What to do about a step that could not be carried out.
#[derive(Clone, Copy, Debug, PartialEq, Eq)]
pub enum Policy {
    /// End the process abruptly.
    Abort,
    /// Pass over it and go on with the next step.
    Ignore,
}

impl Policy {
    /// What the policy rules when the trouble it is about has occurred.
    pub open spec fn ruling(self) -> Verdict {
        match self {
            Policy::Abort => Verdict::Abort,
            Policy::Ignore => Verdict::Continue,
        }
    }

    /// What the policy rules when the trouble it is about has occurred.
    pub fn rule(&self) -> (verdict: Verdict)
        ensures
            verdict == self.ruling(),
    {
        match self {
            Policy::Abort => Verdict::Abort,
            Policy::Ignore => Verdict::Continue,
        }
    }
}

/// How an attempt at a step ended.
#[derive(Clone, Copy, Debug, PartialEq, Eq)]
pub enum Outcome {
    /// The step was carried out.
    Done,
    /// The step needs the main window and there is none.
    WindowMissing,
    /// The window system reported an error.
    Failed,
}

/// What follows an attempt at a step.
#[derive(Clone, Copy, Debug, PartialEq, Eq)]
pub enum Verdict {
    /// Go on with the next step, if there is one.
    Continue,
    /// End the process abruptly.
    Abort,
}

/// The steps of a reaction with its two policies.
#[derive(Debug, PartialEq, Eq)]
pub struct Plan {
    /// The steps, in the order in which they are performed.
    pub steps: Vec<Step>,
    /// What to do when a step needs the main window and there is none.
    pub if_window_missing: Policy,
    /// What to do when the window system reports an error for a step.
    pub if_step_fails: Policy,
}

/// The mathematical content of a [`Plan`].
pub struct PlanModel {
    pub steps: Seq<Step>,
    pub if_window_missing: Policy,
    pub if_step_fails: Policy,
}

impl PlanModel {
    /// What follows an attempt at one of the plan's steps that ended in
    /// `outcome`.
    pub open spec fn verdict(self, outcome: Outcome) -> Verdict {
        match outcome {
            Outcome::Done => Verdict::Continue,
            Outcome::WindowMissing => self.if_window_missing.ruling(),
            Outcome::Failed => self.if_step_fails.ruling(),
        }
    }

    /// Whether no outcome of any step makes the plan end the process.
    pub open spec fn is_lenient(self) -> bool {
        self.if_window_missing == Policy::Ignore && self.if_step_fails == Policy::Ignore
    }

    /// Whether every outcome but success makes the plan end the process.
    pub open spec fn is_strict(self) -> bool {
        self.if_window_missing == Policy::Abort && self.if_step_fails == Policy::Abort
    }
}

impl View for Plan {
    type V = PlanModel;

    open spec fn view(&self) -> PlanModel {
        PlanModel {
            steps: self.steps@,
            if_window_missing: self.if_window_missing,
            if_step_fails: self.if_step_fails,
        }
    }
}

impl Plan {
    /// Decides what follows an attempt at one of the plan's steps: the process
    /// goes on after a success and after a trouble that the plan ignores, and
    /// ends after a trouble that it does not.
    pub fn verdict(&self, outcome: Outcome) -> (verdict: Verdict)
        ensures
            verdict == self@.verdict(outcome),
    {
        match outcome {
            Outcome::Done => Verdict::Continue,
            Outcome::WindowMissing => self.if_window_missing.rule(),
            Outcome::Failed => self.if_step_fails.rule(),
        }
    }
}

/// A success never ends the process, a lenient plan never ends it, and a
/// strict plan ends it on every outcome but success.
pub proof fn lemma_verdicts(plan: PlanModel, outcome: Outcome)
    ensures
        plan.verdict(Outcome::Done) == Verdict::Continue,
        plan.is_lenient() ==> plan.verdict(outcome) == Verdict::Continue,
        plan.is_strict() ==> (plan.verdict(outcome) == Verdict::Abort <==> outcome != Outcome::Done),
{
}

} // verus!
