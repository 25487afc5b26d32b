//! The shell's reactions: what it does about each thing that can happen to it.
//!
//! Each function takes what happened as plain data and returns the [`Plan`] to
//! perform. The reactions differ in their steps and in how much trouble they
//! put up with. A click in the tray menu is an explicit request: if it cannot
//! be honoured the process ends. A click on the icon and the sizing at startup
//! are conveniences: trouble there is passed over. A second copy of the
//! program needs the main window to hand over to, but does not insist that
//! raising it works.

use crate::geometry::{startup_min_size, MonitorProbe};
#[allow(unused_imports)]
use crate::geometry::{eighth_of, startup_min_size_of};
#[allow(unused_imports)]
use crate::menu::lemma_with_id_inverts_id;
use crate::menu::MenuEntry;
use crate::plan::{FrontendEvent, Plan, Policy, Step};
#[allow(unused_imports)]
use crate::plan::{Outcome, PlanModel, Verdict};
use crate::tray::TrayEvent;
use vstd::prelude::*;

verus! {

/// The label of the main window.
pub const MAIN_WINDOW: &'static str = "main";

/// The exit code with which the menu's last entry ends the process.
pub const EXIT_CODE: i32 = 0;

/// The steps that follow a click on a menu entry.
pub open spec fn entry_steps(entry: MenuEntry) -> Seq<Step> {
    match entry {
        MenuEntry::Show => seq![Step::ShowWindow, Step::FocusWindow],
        MenuEntry::Settings => seq![
            Step::ShowWindow,
            Step::FocusWindow,
            Step::Emit(FrontendEvent::OpenSettings),
        ],
        MenuEntry::Quit => seq![Step::Exit(EXIT_CODE)],
    }
}

/// The reaction to a click in the tray menu, reported under the identifier
/// `id`: the steps of the entry that `id` names and none where it names no
/// entry, under a strict plan.
pub open spec fn menu_plan(id: Seq<char>) -> PlanModel {
    PlanModel {
        steps: match MenuEntry::with_id(id) {
            Some(entry) => entry_steps(entry),
            None => Seq::empty(),
        },
        if_window_missing: Policy::Abort,
        if_step_fails: Policy::Abort,
    }
}

/// The reaction to an event on the tray icon: a click with the left button
/// shows and focuses the main window, anything else does nothing, under a
/// lenient plan.
pub open spec fn tray_plan(event: TrayEvent) -> PlanModel {
    PlanModel {
        steps: if event.is_left_click() {
            seq![Step::ShowWindow, Step::FocusWindow]
        } else {
            Seq::empty()
        },
        if_window_missing: Policy::Ignore,
        if_step_fails: Policy::Ignore,
    }
}

/// The reaction of the running program to the launch of a second copy: it
/// shows and focuses its main window. A missing window ends the process, a
/// step that fails does not.
pub open spec fn second_instance_plan() -> PlanModel {
    PlanModel {
        steps: seq![Step::ShowWindow, Step::FocusWindow],
        if_window_missing: Policy::Abort,
        if_step_fails: Policy::Ignore,
    }
}

/// The sizing of the main window at startup: where the monitor is known the
/// window gets an eighth of it as its smallest size, otherwise nothing is
/// done, under a lenient plan.
pub open spec fn startup_plan(probe: MonitorProbe) -> PlanModel {
    PlanModel {
        steps: match startup_min_size_of(probe) {
            Some(bound) => seq![Step::SetMinSize(bound)],
            None => Seq::empty(),
        },
        if_window_missing: Policy::Ignore,
        if_step_fails: Policy::Ignore,
    }
}

/// Plans the steps that follow a click on `entry`.
pub fn steps_for_entry(entry: MenuEntry) -> (steps: Vec<Step>)
    ensures
        steps@ == entry_steps(entry),
{
    let mut steps: Vec<Step> = Vec::new();
    match entry {
        MenuEntry::Show => {
            steps.push(Step::ShowWindow);
            steps.push(Step::FocusWindow);
        },
        MenuEntry::Settings => {
            steps.push(Step::ShowWindow);
            steps.push(Step::FocusWindow);
            steps.push(Step::Emit(FrontendEvent::OpenSettings));
        },
        MenuEntry::Quit => {
            steps.push(Step::Exit(EXIT_CODE));
        },
    }
    steps
}

/// Reacts to a click in the tray menu that was reported under `id`.
pub fn on_menu_event(id: &str) -> (plan: Plan)
    ensures
        plan@ == menu_plan(id@),
{
    let steps = match MenuEntry::from_id(id) {
        Some(entry) => steps_for_entry(entry),
        None => Vec::new(),
    };
    Plan { steps, if_window_missing: Policy::Abort, if_step_fails: Policy::Abort }
}

/// Reacts to an event on the tray icon.
pub fn on_tray_event(event: TrayEvent) -> (plan: Plan)
    ensures
        plan@ == tray_plan(event),
{
    let mut steps: Vec<Step> = Vec::new();
    if event.left_click() {
        steps.push(Step::ShowWindow);
        steps.push(Step::FocusWindow);
    }
    assert(steps@ =~= tray_plan(event).steps);
    Plan { steps, if_window_missing: Policy::Ignore, if_step_fails: Policy::Ignore }
}

/// Reacts, in the running program, to the launch of a second copy.
pub fn on_second_instance() -> (plan: Plan)
    ensures
        plan@ == second_instance_plan(),
{
    let mut steps: Vec<Step> = Vec::new();
    steps.push(Step::ShowWindow);
    steps.push(Step::FocusWindow);
    assert(steps@ =~= second_instance_plan().steps);
    Plan { steps, if_window_missing: Policy::Abort, if_step_fails: Policy::Ignore }
}

/// Plans the sizing of the main window at startup from the outcome of the
/// query for the primary monitor.
pub fn on_startup(probe: MonitorProbe) -> (plan: Plan)
    ensures
        plan@ == startup_plan(probe),
{
    let mut steps: Vec<Step> = Vec::new();
    match startup_min_size(probe) {
        Some(bound) => {
            steps.push(Step::SetMinSize(bound));
        },
        None => {},
    }
    assert(steps@ =~= startup_plan(probe).steps);
    Plan { steps, if_window_missing: Policy::Ignore, if_step_fails: Policy::Ignore }
}

/// Whether `steps` holds an [`Step::Exit`].
pub open spec fn ends_process(steps: Seq<Step>) -> bool {
    exists|i: int| 0 <= i < steps.len() && steps[i] is Exit
}

/// Whether `steps` focuses the main window, after having shown it as the
/// first thing it does.
pub open spec fn raises_window(steps: Seq<Step>) -> bool {
    &&& steps.len() >= 2
    &&& steps[0] == Step::ShowWindow
    &&& steps[1] == Step::FocusWindow
}

/// A click in the menu does something exactly when its identifier names an
/// entry. The entry `quit` asks the process to end with [`EXIT_CODE`] and
/// does nothing else, and no other entry ends the process. The entries `show`
/// and `settings` raise the main window, and `settings` then tells the front
/// end to open its settings view.
pub proof fn lemma_menu_reactions(id: Seq<char>)
    ensures
        menu_plan(id).is_strict(),
        menu_plan(id).steps.len() > 0 <==> MenuEntry::with_id(id) is Some,
        ends_process(menu_plan(id).steps) <==> id == "quit"@,
        id == "quit"@ ==> menu_plan(id).steps == seq![Step::Exit(EXIT_CODE)],
        raises_window(menu_plan(id).steps) <==> id == "show"@ || id == "settings"@,
        id == "show"@ ==> menu_plan(id).steps.len() == 2,
        id == "settings"@ ==> menu_plan(id).steps.len() == 3 && menu_plan(id).steps[2]
            == Step::Emit(FrontendEvent::OpenSettings),
{
    lemma_with_id_inverts_id(id, MenuEntry::Show);
    lemma_with_id_inverts_id(id, MenuEntry::Settings);
    lemma_with_id_inverts_id(id, MenuEntry::Quit);
    let steps = menu_plan(id).steps;
    match MenuEntry::with_id(id) {
        Some(MenuEntry::Quit) => {
            assert(steps[0] is Exit);
        },
        Some(MenuEntry::Show) => {
            assert(steps[0] == Step::ShowWindow && steps[1] == Step::FocusWindow);
        },
        Some(MenuEntry::Settings) => {
            assert(steps[0] == Step::ShowWindow && steps[1] == Step::FocusWindow);
        },
        None => {},
    }
}

/// An event on the tray icon leads to steps exactly when it is a click with
/// the left button, and the steps then raise the main window. Whatever comes
/// of them, the process goes on.
pub proof fn lemma_tray_reactions(event: TrayEvent, outcome: Outcome)
    ensures
        tray_plan(event).steps.len() > 0 <==> event.is_left_click(),
        event.is_left_click() ==> raises_window(tray_plan(event).steps) && tray_plan(
            event,
        ).steps.len() == 2,
        !ends_process(tray_plan(event).steps),
        tray_plan(event).verdict(outcome) == Verdict::Continue,
{
}

/// The launch of a second copy raises the main window of the running one. The
/// running process ends over it only where it has no main window.
pub proof fn lemma_second_instance_reaction(outcome: Outcome)
    ensures
        raises_window(second_instance_plan().steps),
        second_instance_plan().steps.len() == 2,
        second_instance_plan().verdict(outcome) == Verdict::Abort <==> outcome
            == Outcome::WindowMissing,
{
}

/// The sizing at startup consists of at most one step, which bounds the
/// window by an eighth of the monitor, and never ends the process.
pub proof fn lemma_startup_reaction(probe: MonitorProbe, outcome: Outcome)
    ensures
        startup_plan(probe).steps.len() <= 1,
        startup_plan(probe).steps.len() == 1 <==> probe is Found,
        probe matches MonitorProbe::Found(monitor) ==> startup_plan(probe).steps[0]
            == Step::SetMinSize(eighth_of(monitor)),
        !ends_process(startup_plan(probe).steps),
        startup_plan(probe).verdict(outcome) == Verdict::Continue,
{
}

} // verus!
