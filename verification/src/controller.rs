//! The controller of the main window.
//!
//! The controller never holds a window. For each event it is handed the
//! windows as they are observed at that moment, and answers with the
//! effects that the user-interface runtime is to carry out, in order. What
//! each effect does to the open windows is stated here as well, so that the
//! state after an event is a matter of proof.

use crate::config::{is_main_window, main_window_config, WindowConfig, MAIN_WINDOW_LABEL};
use crate::launch::{LaunchEvent, LaunchEventView};
use crate::registry::WindowRegistry;
use crate::window::WindowStatus;
use vstd::prelude::*;

verus! {

/// The state of the main window.
#[derive(Clone, Copy, Debug, PartialEq, Eq)]
pub enum MainWindowState {
    /// No window carries the main label.
    Absent,
    /// The main window is open, in the given condition.
    Open(WindowStatus),
}

/// An event that concerns the lifecycle of a window.
#[derive(Debug, PartialEq, Eq)]
pub enum WindowEvent {
    /// This process became the running instance.
    PrimaryLaunch,
    /// Another launch was made while this instance runs.
    SecondaryLaunch(LaunchEvent),
    /// The window under `label` was asked to close.
    CloseRequested { label: String },
}

/// A window event as a mathematical value.
pub enum WindowEventView {
    PrimaryLaunch,
    SecondaryLaunch(LaunchEventView),
    CloseRequested { label: Seq<char> },
}

impl View for WindowEvent {
    type V = WindowEventView;

    open spec fn view(&self) -> WindowEventView {
        match self {
            WindowEvent::PrimaryLaunch => WindowEventView::PrimaryLaunch,
            WindowEvent::SecondaryLaunch(event) => WindowEventView::SecondaryLaunch(event@),
            WindowEvent::CloseRequested { label } => WindowEventView::CloseRequested {
                label: label@,
            },
        }
    }
}

/// One thing the runtime is asked to do to the window an event concerns.
#[derive(Clone, Copy, Debug, PartialEq, Eq)]
pub enum Effect {
    /// Create a window from the configuration.
    CreateWindow(WindowConfig),
    /// Bring the window back from its minimized state.
    Unminimize,
    /// Give the window the focus.
    Focus,
    /// Minimize the window.
    Minimize,
    /// Keep the requested close from taking effect.
    PreventClose,
    /// Let the requested close take effect.
    AllowClose,
}

/// What becomes of the process when the runtime fails to carry out an
/// effect.
#[derive(Clone, Copy, Debug, PartialEq, Eq)]
pub enum FailurePolicy {
    /// The failure is fatal: the process ends with a diagnostic.
    Abort,
    /// The failure ends the handling of this event only: it is logged and
    /// the process runs on.
    LogAndContinue,
}

/// The state of the main window among `windows`.
pub open spec fn state_of(windows: Map<Seq<char>, WindowStatus>) -> MainWindowState {
    if windows.contains_key(MAIN_WINDOW_LABEL@) {
        MainWindowState::Open(windows[MAIN_WINDOW_LABEL@])
    } else {
        MainWindowState::Absent
    }
}

/// The label of the window that `event` concerns: the main window for a
/// launch, the window asked to close for a close request.
pub open spec fn target_of(event: WindowEventView) -> Seq<char> {
    match event {
        WindowEventView::CloseRequested { label } => label,
        _ => MAIN_WINDOW_LABEL@,
    }
}

/// The effects that answer `event` when `windows` are open.
///
/// A primary launch creates the main window and focuses it; where the main
/// window is open already, it is brought forward instead, so that no second
/// one is made. A secondary launch brings the main window forward, and is
/// dropped where there is none. A close request on the main window while
/// other windows are open is turned into minimizing it; any other close
/// request goes through.
pub open spec fn effects_of(
    windows: Map<Seq<char>, WindowStatus>,
    event: WindowEventView,
) -> Seq<Effect> {
    match event {
        WindowEventView::PrimaryLaunch => if windows.contains_key(MAIN_WINDOW_LABEL@) {
            seq![Effect::Unminimize, Effect::Focus]
        } else {
            seq![Effect::CreateWindow(main_window_config()), Effect::Focus]
        },
        WindowEventView::SecondaryLaunch(_) => if windows.contains_key(MAIN_WINDOW_LABEL@) {
            seq![Effect::Unminimize, Effect::Focus]
        } else {
            Seq::empty()
        },
        WindowEventView::CloseRequested { label } => if label == MAIN_WINDOW_LABEL@
            && windows.len() > 1 {
            seq![Effect::Minimize, Effect::PreventClose]
        } else {
            seq![Effect::AllowClose]
        },
    }
}

/// What `effect`, once carried out on the window under `target`, makes of
/// `windows`. An effect on a window that is not open changes nothing.
pub open spec fn apply_effect(
    windows: Map<Seq<char>, WindowStatus>,
    target: Seq<char>,
    effect: Effect,
) -> Map<Seq<char>, WindowStatus> {
    match effect {
        Effect::CreateWindow(config) => if windows.contains_key(config.label@) {
            windows
        } else {
            windows.insert(config.label@, WindowStatus { focused: false, minimized: false })
        },
        Effect::Unminimize => if windows.contains_key(target) {
            windows.insert(
                target,
                WindowStatus { focused: windows[target].focused, minimized: false },
            )
        } else {
            windows
        },
        Effect::Focus => if windows.contains_key(target) {
            windows.insert(
                target,
                WindowStatus { focused: true, minimized: windows[target].minimized },
            )
        } else {
            windows
        },
        Effect::Minimize => if windows.contains_key(target) {
            windows.insert(
                target,
                WindowStatus { focused: windows[target].focused, minimized: true },
            )
        } else {
            windows
        },
        Effect::PreventClose => windows,
        Effect::AllowClose => windows.remove(target),
    }
}

/// What `effects`, carried out in order, make of `windows`.
pub open spec fn apply_effects(
    windows: Map<Seq<char>, WindowStatus>,
    target: Seq<char>,
    effects: Seq<Effect>,
) -> Map<Seq<char>, WindowStatus>
    decreases effects.len(),
{
    if effects.len() == 0 {
        windows
    } else {
        apply_effect(apply_effects(windows, target, effects.drop_last()), target, effects.last())
    }
}

/// The open windows after `event` has been answered and its effects have
/// been carried out.
pub open spec fn after(
    windows: Map<Seq<char>, WindowStatus>,
    event: WindowEventView,
) -> Map<Seq<char>, WindowStatus> {
    apply_effects(windows, target_of(event), effects_of(windows, event))
}

impl WindowEvent {
    /// The label of the window that the event concerns.
    pub fn target(&self) -> (label: &str)
        ensures
            label@ == target_of(self@),
    {
        match self {
            WindowEvent::CloseRequested { label } => label.as_str(),
            _ => MAIN_WINDOW_LABEL,
        }
    }
}

/// The state of the main window, looked up afresh among the open windows.
pub fn observe(registry: &WindowRegistry) -> (state: MainWindowState)
    requires
        registry.wf(),
    ensures
        state == state_of(registry@),
{
    match registry.find(MAIN_WINDOW_LABEL) {
        Some(handle) => MainWindowState::Open(handle.status),
        None => MainWindowState::Absent,
    }
}

/// Decides the effects that answer `event`, from the windows that are open
/// now.
pub fn decide(registry: &WindowRegistry, event: &WindowEvent) -> (effects: Vec<Effect>)
    requires
        registry.wf(),
    ensures
        effects@ == effects_of(registry@, event@),
{
    let mut effects: Vec<Effect> = Vec::new();
    match event {
        WindowEvent::PrimaryLaunch => {
            if registry.find(MAIN_WINDOW_LABEL).is_none() {
                effects.push(Effect::CreateWindow(main_window_config()));
            } else {
                effects.push(Effect::Unminimize);
            }
            effects.push(Effect::Focus);
        },
        WindowEvent::SecondaryLaunch(_) => {
            if registry.find(MAIN_WINDOW_LABEL).is_some() {
                effects.push(Effect::Unminimize);
                effects.push(Effect::Focus);
            }
        },
        WindowEvent::CloseRequested { label } => {
            if is_main_window(label.as_str()) && registry.count() > 1 {
                effects.push(Effect::Minimize);
                effects.push(Effect::PreventClose);
            } else {
                effects.push(Effect::AllowClose);
            }
        },
    }
    assert(effects@ =~= effects_of(registry@, event@));
    effects
}

/// Carries `effect` out on the window under `target` in the registry.
pub fn apply(registry: &mut WindowRegistry, target: &str, effect: Effect)
    requires
        old(registry).wf(),
    ensures
        final(registry).wf(),
        final(registry)@ == apply_effect(old(registry)@, target@, effect),
{
    match effect {
        Effect::CreateWindow(config) => {
            registry.open(
                String::from_str(config.label),
                WindowStatus { focused: false, minimized: false },
            );
        },
        Effect::Unminimize => {
            let status = current_status(registry, target);
            if let Some(status) = status {
                registry.set_status(
                    target,
                    WindowStatus { focused: status.focused, minimized: false },
                );
            }
        },
        Effect::Focus => {
            let status = current_status(registry, target);
            if let Some(status) = status {
                registry.set_status(
                    target,
                    WindowStatus { focused: true, minimized: status.minimized },
                );
            }
        },
        Effect::Minimize => {
            let status = current_status(registry, target);
            if let Some(status) = status {
                registry.set_status(
                    target,
                    WindowStatus { focused: status.focused, minimized: true },
                );
            }
        },
        Effect::PreventClose => {},
        Effect::AllowClose => {
            registry.close(target);
        },
    }
}

fn current_status(registry: &WindowRegistry, label: &str) -> (status: Option<WindowStatus>)
    requires
        registry.wf(),
    ensures
        status == if registry@.contains_key(label@) {
            Some(registry@[label@])
        } else {
            None
        },
{
    match registry.find(label) {
        Some(handle) => Some(handle.status),
        None => None,
    }
}

/// Answers `event`: decides its effects from the windows in the registry
/// and carries them out there, in order and without anything coming in
/// between.
pub fn handle(registry: &mut WindowRegistry, event: &WindowEvent) -> (effects: Vec<Effect>)
    requires
        old(registry).wf(),
    ensures
        final(registry).wf(),
        effects@ == effects_of(old(registry)@, event@),
        final(registry)@ == after(old(registry)@, event@),
{
    let effects = decide(registry, event);
    let target = event.target();
    let ghost before = registry@;
    let mut i: usize = 0;
    while i < effects.len()
        invariant
            registry.wf(),
            i <= effects.len(),
            registry@ == apply_effects(before, target@, effects@.take(i as int)),
        decreases effects.len() - i,
    {
        proof {
            let done = effects@.take(i as int + 1);
            assert(done.drop_last() =~= effects@.take(i as int));
            assert(done.last() == effects@[i as int]);
        }
        apply(registry, target, effects[i]);
        i += 1;
    }
    assert(effects@.take(effects.len() as int) =~= effects@);
    effects
}

/// What a failure to carry out an effect of `event` means. Failing to open
/// or focus the main window at startup is fatal, and so is failing to
/// minimize it in place of a close; failing to bring it forward on a
/// relaunch is not.
pub fn failure_policy(event: &WindowEvent) -> (policy: FailurePolicy)
    ensures
        policy == if event@ is SecondaryLaunch {
            FailurePolicy::LogAndContinue
        } else {
            FailurePolicy::Abort
        },
{
    match event {
        WindowEvent::SecondaryLaunch(_) => FailurePolicy::LogAndContinue,
        _ => FailurePolicy::Abort,
    }
}

} // verus!
