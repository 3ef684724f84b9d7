//! Fixed configuration of the main window.

use vstd::prelude::*;

verus! {

/// Label that identifies the main window among the open windows.
pub const MAIN_WINDOW_LABEL: &'static str = "main";

/// Title the main window is created with.
pub const MAIN_WINDOW_TITLE: &'static str = "Nekops";

/// Initial width of the main window, in logical pixels.
pub const MAIN_WINDOW_WIDTH: u32 = 1200;

/// Initial height of the main window, in logical pixels.
pub const MAIN_WINDOW_HEIGHT: u32 = 800;

/// Resource of the user interface that the main window shows.
pub const ROOT_RESOURCE: &'static str = "index.html";

/// What a window is created from.
#[derive(Clone, Copy, Debug, PartialEq, Eq)]
pub struct WindowConfig {
    pub label: &'static str,
    pub title: &'static str,
    pub width: u32,
    pub height: u32,
    pub resource: &'static str,
}

/// The configuration of the main window, for use in contracts.
pub open spec fn spec_main_window_config() -> WindowConfig {
    WindowConfig {
        label: MAIN_WINDOW_LABEL,
        title: MAIN_WINDOW_TITLE,
        width: MAIN_WINDOW_WIDTH,
        height: MAIN_WINDOW_HEIGHT,
        resource: ROOT_RESOURCE,
    }
}

/// The configuration of the main window: the fixed label, title, size and
/// root resource.
#[verifier::when_used_as_spec(spec_main_window_config)]
pub fn main_window_config() -> (config: WindowConfig)
    ensures
        config == spec_main_window_config(),
{
    WindowConfig {
        label: MAIN_WINDOW_LABEL,
        title: MAIN_WINDOW_TITLE,
        width: MAIN_WINDOW_WIDTH,
        height: MAIN_WINDOW_HEIGHT,
        resource: ROOT_RESOURCE,
    }
}

/// Whether `label` names the main window.
pub fn is_main_window(label: &str) -> (main: bool)
    ensures
        main == (label@ == MAIN_WINDOW_LABEL@),
{
    crate::text::same_text(label, MAIN_WINDOW_LABEL)
}

} // verus!
