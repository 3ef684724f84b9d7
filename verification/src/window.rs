//! What is observed of one open window.

use vstd::prelude::*;

verus! {

/// The observable condition of an open window.
#[derive(Clone, Copy, Debug, PartialEq, Eq, Structural)]
pub struct WindowStatus {
    pub focused: bool,
    pub minimized: bool,
}

/// A window as it was found under its label: the label and the condition
/// observed at that moment.
#[derive(Debug, PartialEq, Eq)]
pub struct WindowHandle {
    pub label: String,
    pub status: WindowStatus,
}

impl WindowHandle {
    pub fn new(label: String, focused: bool, minimized: bool) -> (handle: Self)
        ensures
            handle.label == label,
            handle.status == (WindowStatus { focused, minimized }),
    {
        WindowHandle { label, status: WindowStatus { focused, minimized } }
    }

    pub fn label(&self) -> (label: &str)
        ensures
            label@ == self.label@,
    {
        self.label.as_str()
    }

    pub fn is_focused(&self) -> (focused: bool)
        ensures
            focused == self.status.focused,
    {
        self.status.focused
    }

    pub fn is_minimized(&self) -> (minimized: bool)
        ensures
            minimized == self.status.minimized,
    {
        self.status.minimized
    }
}

} // verus!
