//! Tray-driven application lifecycle: a single-owner state machine that
//! turns window and tray events into the next lifecycle state and the one
//! action the shell must perform.

use vstd::prelude::*;

verus! {

/// The process-wide lifecycle of the application. `Running` is the
/// initial state; a window-close request leads to `MinimizedToTray`,
/// never to `Exiting`; only the tray quit action reaches `Exiting`, which
/// is terminal.
#[derive(Clone, Copy, Debug, PartialEq, Eq, Structural)]
pub enum AppLifecycleState {
    Running,
    MinimizedToTray,
    Exiting,
}

/// One entry of the tray menu. The menu currently holds a single quit
/// item, but the model carries arbitrary items.
#[derive(Debug)]
pub struct TrayMenuItem {
    pub id: String,
    pub label: String,
}

/// An event delivered to the lifecycle controller by the shell, in
/// arrival order, one at a time.
#[derive(Debug)]
pub enum LifecycleEvent {
    /// The user asked to close the window; the OS default would end the
    /// process.
    CloseRequested,
    /// The user brought the window back (for instance by clicking the
    /// tray icon).
    WindowReactivated,
    /// A tray menu item was clicked.
    TrayMenuClick { id: String },
}

/// What the shell must do after a transition. The controller itself
/// performs no I/O; it only names the action.
#[derive(Clone, Copy, Debug, PartialEq, Eq, Structural)]
pub enum LifecycleAction {
    /// Suppress the close request's default and hide the window; the tray
    /// icon keeps the process reachable.
    HideWindow,
    /// Terminate the process with a success exit code.
    ExitProcess,
    /// Nothing to do.
    Ignore,
}

/// The id of the tray menu item that quits the application.
pub open spec fn quit_menu_id() -> Seq<char> {
    "quit"@
}

/// The transition relation of the lifecycle state machine: next state and
/// required shell action for each state and event. `Exiting` is terminal;
/// from a live state, a close request always minimizes to the tray, a
/// quit click always exits, and every other tray click is a no-op.
pub open spec fn spec_step(state: AppLifecycleState, event: LifecycleEvent) -> (AppLifecycleState,
    LifecycleAction) {
    if state is Exiting {
        (AppLifecycleState::Exiting, LifecycleAction::Ignore)
    } else {
        match event {
            LifecycleEvent::CloseRequested => (
                AppLifecycleState::MinimizedToTray,
                LifecycleAction::HideWindow,
            ),
            LifecycleEvent::WindowReactivated => (
                AppLifecycleState::Running,
                LifecycleAction::Ignore,
            ),
            LifecycleEvent::TrayMenuClick { id } => if id@ == quit_menu_id() {
                (AppLifecycleState::Exiting, LifecycleAction::ExitProcess)
            } else {
                (state, LifecycleAction::Ignore)
            },
        }
    }
}

/// The tray menu item that quits the application: id `"quit"`, label
/// `"Quit"`.
pub fn quit_menu_item() -> (item: TrayMenuItem)
    ensures
        item.id@ == quit_menu_id(),
        item.label@ == "Quit"@,
{
    TrayMenuItem { id: "quit".to_owned(), label: "Quit".to_owned() }
}

/// The whole tray menu: the single quit item.
pub fn tray_menu() -> (menu: Vec<TrayMenuItem>)
    ensures
        menu@.len() == 1,
        menu@[0].id@ == quit_menu_id(),
        menu@[0].label@ == "Quit"@,
{
    let mut menu: Vec<TrayMenuItem> = Vec::new();
    menu.push(quit_menu_item());
    menu
}

/// The single owner of the lifecycle state. The shell delivers each event
/// through [`LifecycleController::handle`] and performs the returned
/// action; no other code path mutates the state.
pub struct LifecycleController {
    state: AppLifecycleState,
}

impl View for LifecycleController {
    type V = AppLifecycleState;

    closed spec fn view(&self) -> AppLifecycleState {
        self.state
    }
}

impl LifecycleController {
    /// A controller in the initial state, `Running`.
    pub fn new() -> (controller: LifecycleController)
        ensures
            controller@ == AppLifecycleState::Running,
    {
        LifecycleController { state: AppLifecycleState::Running }
    }

    /// The current lifecycle state.
    pub fn state(&self) -> (state: AppLifecycleState)
        ensures
            state == self@,
    {
        self.state
    }

    /// Processes one event: moves to the state the transition relation
    /// prescribes and returns the action the shell must perform.
    pub fn handle(&mut self, event: &LifecycleEvent) -> (action: LifecycleAction)
        ensures
            final(self)@ == spec_step(old(self)@, *event).0,
            action == spec_step(old(self)@, *event).1,
    {
        if matches!(self.state, AppLifecycleState::Exiting) {
            return LifecycleAction::Ignore;
        }
        match event {
            LifecycleEvent::CloseRequested => {
                self.state = AppLifecycleState::MinimizedToTray;
                LifecycleAction::HideWindow
            },
            LifecycleEvent::WindowReactivated => {
                self.state = AppLifecycleState::Running;
                LifecycleAction::Ignore
            },
            LifecycleEvent::TrayMenuClick { id } => {
                if *id == "quit".to_owned() {
                    self.state = AppLifecycleState::Exiting;
                    LifecycleAction::ExitProcess
                } else {
                    LifecycleAction::Ignore
                }
            },
        }
    }
}

/// Whether an event is a tray click on the quit item — the one event
/// that ends the process.
pub open spec fn is_quit_click(event: LifecycleEvent) -> bool {
    event matches LifecycleEvent::TrayMenuClick { id } && id@ == quit_menu_id()
}

/// The state after a whole sequence of events, processed one at a time in
/// arrival order.
pub open spec fn spec_run(state: AppLifecycleState, events: Seq<LifecycleEvent>) -> AppLifecycleState
    decreases events.len(),
{
    if events.len() == 0 {
        state
    } else {
        spec_run(spec_step(state, events[0]).0, events.drop_first())
    }
}

/// Law: a window-close request from a live state always minimizes to the
/// tray — the state becomes `MinimizedToTray`, never `Exiting`, and the
/// shell is told to suppress the close and hide the window, never to
/// terminate the process.
pub proof fn lemma_close_minimizes(state: AppLifecycleState)
    requires
        state != AppLifecycleState::Exiting,
    ensures
        spec_step(state, LifecycleEvent::CloseRequested).0 == AppLifecycleState::MinimizedToTray,
        spec_step(state, LifecycleEvent::CloseRequested).1 == LifecycleAction::HideWindow,
{
}

/// Law: from a live state, the next state is `Exiting` exactly when the
/// event is a tray click on the quit item; no other event ends the
/// process, and the exit action accompanies exactly that transition.
pub proof fn lemma_only_quit_exits(state: AppLifecycleState, event: LifecycleEvent)
    requires
        state != AppLifecycleState::Exiting,
    ensures
        (spec_step(state, event).0 is Exiting) <==> is_quit_click(event),
        (spec_step(state, event).1 == LifecycleAction::ExitProcess) <==> (spec_step(
            state,
            event,
        ).0 is Exiting),
{
}

/// Law: `Exiting` is terminal — no event leads out of it, and no further
/// action is requested.
pub proof fn lemma_exiting_terminal(event: LifecycleEvent)
    ensures
        spec_step(AppLifecycleState::Exiting, event).0 == AppLifecycleState::Exiting,
        spec_step(AppLifecycleState::Exiting, event).1 == LifecycleAction::Ignore,
{
}

/// Law: `Exiting` is terminal over whole runs — whatever arrives after
/// the exit transition, the state stays `Exiting`.
pub proof fn lemma_exiting_stays(events: Seq<LifecycleEvent>)
    ensures
        spec_run(AppLifecycleState::Exiting, events) == AppLifecycleState::Exiting,
    decreases events.len(),
{
    if events.len() > 0 {
        lemma_exiting_stays(events.drop_first());
    }
}

/// Law: the tray quit click is the only way out of the process — a run
/// from a live state in which the quit item is never clicked never
/// reaches `Exiting`, however the window is closed or reactivated in
/// between.
pub proof fn lemma_no_quit_no_exit(state: AppLifecycleState, events: Seq<LifecycleEvent>)
    requires
        state != AppLifecycleState::Exiting,
        forall|i: int| 0 <= i < events.len() ==> !is_quit_click(events[i]),
    ensures
        spec_run(state, events) != AppLifecycleState::Exiting,
    decreases events.len(),
{
    if events.len() > 0 {
        lemma_only_quit_exits(state, events[0]);
        let rest = events.drop_first();
        assert forall|i: int| 0 <= i < rest.len() implies !is_quit_click(rest[i]) by {
            assert(rest[i] == events[i + 1]);
        }
        lemma_no_quit_no_exit(spec_step(state, events[0]).0, rest);
    }
}

} // verus!
