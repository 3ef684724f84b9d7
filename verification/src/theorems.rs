//! Theorems about the lifecycle of the main window.
//!
//! Each theorem is stated over the open windows as a map from label to
//! condition, the model in which the controller's contracts speak.

use crate::controller::{
    after, apply_effect, apply_effects, effects_of, state_of, Effect, MainWindowState,
    WindowEventView,
};
use crate::config::MAIN_WINDOW_LABEL;
use crate::launch::LaunchEventView;
use crate::window::WindowStatus;
use vstd::prelude::*;

verus! {

/// A single effect, carried out as a sequence, is that effect.
pub proof fn lemma_apply_one(
    windows: Map<Seq<char>, WindowStatus>,
    target: Seq<char>,
    first: Effect,
)
    ensures
        apply_effects(windows, target, seq![first]) == apply_effect(windows, target, first),
{
    let effects = seq![first];
    assert(effects.drop_last() =~= Seq::<Effect>::empty());
    assert(apply_effects(windows, target, effects.drop_last()) == windows);
}

/// Two effects, carried out as a sequence, are the first and then the
/// second.
pub proof fn lemma_apply_two(
    windows: Map<Seq<char>, WindowStatus>,
    target: Seq<char>,
    first: Effect,
    second: Effect,
)
    ensures
        apply_effects(windows, target, seq![first, second]) == apply_effect(
            apply_effect(windows, target, first),
            target,
            second,
        ),
{
    let effects = seq![first, second];
    assert(effects.drop_last() =~= seq![first]);
    lemma_apply_one(windows, target, first);
}

/// A finite collection of windows with two different labels in it holds
/// more than one window.
proof fn lemma_two_windows(windows: Map<Seq<char>, WindowStatus>, a: Seq<char>, b: Seq<char>)
    requires
        windows.dom().finite(),
        windows.contains_key(a),
        windows.contains_key(b),
        a != b,
    ensures
        windows.len() > 1,
{
    let without_a = windows.dom().remove(a);
    assert(without_a.contains(b));
    assert(without_a.remove(b).len() == windows.dom().len() - 2);
}

/// While another window is open, a close request on the main window is
/// vetoed: it is answered by minimizing it and preventing the close. The
/// main window is then open and minimized, with the focus it had, and
/// every other window is open as it was.
pub proof fn lemma_close_veto(windows: Map<Seq<char>, WindowStatus>, secondary: Seq<char>)
    requires
        windows.dom().finite(),
        windows.contains_key(MAIN_WINDOW_LABEL@),
        windows.contains_key(secondary),
        secondary != MAIN_WINDOW_LABEL@,
    ensures
        ({
            let request = WindowEventView::CloseRequested { label: MAIN_WINDOW_LABEL@ };
            let minimized = WindowStatus {
                focused: windows[MAIN_WINDOW_LABEL@].focused,
                minimized: true,
            };
            &&& effects_of(windows, request) == seq![Effect::Minimize, Effect::PreventClose]
            &&& after(windows, request) == windows.insert(MAIN_WINDOW_LABEL@, minimized)
            &&& state_of(after(windows, request)) == MainWindowState::Open(minimized)
            &&& after(windows, request).contains_key(secondary)
            &&& after(windows, request)[secondary] == windows[secondary]
        }),
{
    lemma_two_windows(windows, MAIN_WINDOW_LABEL@, secondary);
    lemma_apply_two(windows, MAIN_WINDOW_LABEL@, Effect::Minimize, Effect::PreventClose);
}

/// Where the main window is the only open window, a close request on it is
/// let through, and no window is open afterwards.
pub proof fn lemma_close_proceeds(windows: Map<Seq<char>, WindowStatus>)
    requires
        windows.dom() == set![MAIN_WINDOW_LABEL@],
    ensures
        ({
            let request = WindowEventView::CloseRequested { label: MAIN_WINDOW_LABEL@ };
            &&& effects_of(windows, request) == seq![Effect::AllowClose]
            &&& after(windows, request) == Map::<Seq<char>, WindowStatus>::empty()
            &&& state_of(after(windows, request)) == MainWindowState::Absent
        }),
{
    let request = WindowEventView::CloseRequested { label: MAIN_WINDOW_LABEL@ };
    assert(windows.dom().len() == 1);
    lemma_apply_one(windows, MAIN_WINDOW_LABEL@, Effect::AllowClose);
    assert(after(windows, request) =~= Map::<Seq<char>, WindowStatus>::empty());
}

/// A close request goes through unless it is made on the main window while
/// more than one window is open; it is prevented exactly then.
pub proof fn lemma_veto_exactly_when_anchoring(
    windows: Map<Seq<char>, WindowStatus>,
    label: Seq<char>,
)
    ensures
        ({
            let request = WindowEventView::CloseRequested { label };
            let anchoring = label == MAIN_WINDOW_LABEL@ && windows.len() > 1;
            &&& effects_of(windows, request).contains(Effect::PreventClose) <==> anchoring
            &&& effects_of(windows, request).contains(Effect::AllowClose) <==> !anchoring
            &&& anchoring ==> after(windows, request).dom() == windows.dom()
            &&& !anchoring ==> after(windows, request) == windows.remove(label)
        }),
{
    let request = WindowEventView::CloseRequested { label };
    let effects = effects_of(windows, request);
    if label == MAIN_WINDOW_LABEL@ && windows.len() > 1 {
        assert(effects[1] == Effect::PreventClose);
        lemma_apply_two(windows, label, Effect::Minimize, Effect::PreventClose);
        assert(after(windows, request).dom() =~= windows.dom());
    } else {
        assert(effects[0] == Effect::AllowClose);
        lemma_apply_one(windows, label, Effect::AllowClose);
    }
}

/// A secondary launch that finds the main window open and minimized leaves
/// it open, normal and focused, and every other window as it was.
pub proof fn lemma_relaunch_focus(windows: Map<Seq<char>, WindowStatus>, event: LaunchEventView)
    requires
        windows.contains_key(MAIN_WINDOW_LABEL@),
        windows[MAIN_WINDOW_LABEL@].minimized,
    ensures
        ({
            let relaunch = WindowEventView::SecondaryLaunch(event);
            let forward = WindowStatus { focused: true, minimized: false };
            &&& effects_of(windows, relaunch) == seq![Effect::Unminimize, Effect::Focus]
            &&& after(windows, relaunch) == windows.insert(MAIN_WINDOW_LABEL@, forward)
            &&& state_of(after(windows, relaunch)) == MainWindowState::Open(forward)
        }),
{
    lemma_apply_two(windows, MAIN_WINDOW_LABEL@, Effect::Unminimize, Effect::Focus);
    let relaunch = WindowEventView::SecondaryLaunch(event);
    let forward = WindowStatus { focused: true, minimized: false };
    assert(after(windows, relaunch) =~= windows.insert(MAIN_WINDOW_LABEL@, forward));
}

/// A secondary launch that finds no main window is dropped. It asks
/// nothing of the runtime, and the open windows stay as they are; in
/// particular no window is created.
pub proof fn lemma_relaunch_after_shutdown(
    windows: Map<Seq<char>, WindowStatus>,
    event: LaunchEventView,
)
    requires
        !windows.contains_key(MAIN_WINDOW_LABEL@),
    ensures
        ({
            let relaunch = WindowEventView::SecondaryLaunch(event);
            &&& effects_of(windows, relaunch) == Seq::<Effect>::empty()
            &&& after(windows, relaunch) == windows
            &&& state_of(after(windows, relaunch)) == MainWindowState::Absent
        }),
{
}

/// Un-minimizing a window that is not minimized changes nothing, and
/// un-minimizing twice is un-minimizing once.
pub proof fn lemma_unminimize_idempotent(windows: Map<Seq<char>, WindowStatus>, label: Seq<char>)
    ensures
        ({
            let once = apply_effect(windows, label, Effect::Unminimize);
            &&& apply_effect(once, label, Effect::Unminimize) == once
            &&& windows.contains_key(label) && !windows[label].minimized ==> once == windows
        }),
{
    let once = apply_effect(windows, label, Effect::Unminimize);
    assert(apply_effect(once, label, Effect::Unminimize) =~= once);
    if windows.contains_key(label) && !windows[label].minimized {
        assert(once =~= windows);
    }
}

/// A secondary launch that finds the main window open and already normal
/// leaves it open, normal and focused; it is never toggled to minimized.
/// Answering the same launch once more changes nothing further.
pub proof fn lemma_relaunch_on_normal_window(
    windows: Map<Seq<char>, WindowStatus>,
    event: LaunchEventView,
)
    requires
        windows.contains_key(MAIN_WINDOW_LABEL@),
        !windows[MAIN_WINDOW_LABEL@].minimized,
    ensures
        ({
            let relaunch = WindowEventView::SecondaryLaunch(event);
            let forward = WindowStatus { focused: true, minimized: false };
            &&& state_of(after(windows, relaunch)) == MainWindowState::Open(forward)
            &&& after(after(windows, relaunch), relaunch) == after(windows, relaunch)
        }),
{
    let relaunch = WindowEventView::SecondaryLaunch(event);
    let forward = WindowStatus { focused: true, minimized: false };
    lemma_apply_two(windows, MAIN_WINDOW_LABEL@, Effect::Unminimize, Effect::Focus);
    let next = after(windows, relaunch);
    assert(next =~= windows.insert(MAIN_WINDOW_LABEL@, forward));
    lemma_apply_two(next, MAIN_WINDOW_LABEL@, Effect::Unminimize, Effect::Focus);
    assert(after(next, relaunch) =~= next);
}

/// A primary launch that finds no main window creates it from the fixed
/// configuration and focuses it. The main window is then open, normal and
/// focused, and every other window is as it was.
pub proof fn lemma_primary_launch_opens(windows: Map<Seq<char>, WindowStatus>)
    requires
        !windows.contains_key(MAIN_WINDOW_LABEL@),
    ensures
        ({
            let launch = WindowEventView::PrimaryLaunch;
            let forward = WindowStatus { focused: true, minimized: false };
            &&& effects_of(windows, launch) == seq![
                Effect::CreateWindow(crate::config::main_window_config()),
                Effect::Focus,
            ]
            &&& after(windows, launch) == windows.insert(MAIN_WINDOW_LABEL@, forward)
            &&& state_of(after(windows, launch)) == MainWindowState::Open(forward)
        }),
{
    let launch = WindowEventView::PrimaryLaunch;
    let forward = WindowStatus { focused: true, minimized: false };
    lemma_apply_two(
        windows,
        MAIN_WINDOW_LABEL@,
        Effect::CreateWindow(crate::config::main_window_config()),
        Effect::Focus,
    );
    assert(after(windows, launch) =~= windows.insert(MAIN_WINDOW_LABEL@, forward));
}

/// No event touches a window other than the one it concerns: such a window
/// is open afterwards exactly if it was before, in the same condition.
pub proof fn lemma_other_windows_untouched(
    windows: Map<Seq<char>, WindowStatus>,
    event: WindowEventView,
    label: Seq<char>,
)
    requires
        label != crate::controller::target_of(event),
    ensures
        after(windows, event).contains_key(label) == windows.contains_key(label),
        windows.contains_key(label) ==> after(windows, event)[label] == windows[label],
{
    let target = crate::controller::target_of(event);
    let effects = effects_of(windows, event);
    if effects.len() == 1 {
        assert(effects =~= seq![effects[0]]);
        lemma_apply_one(windows, target, effects[0]);
    } else if effects.len() == 2 {
        assert(effects =~= seq![effects[0], effects[1]]);
        lemma_apply_two(windows, target, effects[0], effects[1]);
    }
}

/// Only a primary launch opens a window, and the only window it opens is
/// the main window: after any other event no window is open that was not
/// open before.
pub proof fn lemma_single_main_window(
    windows: Map<Seq<char>, WindowStatus>,
    event: WindowEventView,
    label: Seq<char>,
)
    requires
        after(windows, event).contains_key(label),
        !windows.contains_key(label),
    ensures
        event is PrimaryLaunch,
        label == MAIN_WINDOW_LABEL@,
{
    let target = crate::controller::target_of(event);
    let effects = effects_of(windows, event);
    if effects.len() == 1 {
        assert(effects =~= seq![effects[0]]);
        lemma_apply_one(windows, target, effects[0]);
    } else if effects.len() == 2 {
        assert(effects =~= seq![effects[0], effects[1]]);
        lemma_apply_two(windows, target, effects[0], effects[1]);
    }
}

} // verus!
