//! How a process of the application ends.

use vstd::prelude::*;

verus! {

/// Exit code of a process that ended normally.
pub const EXIT_SUCCESS: i32 = 0;

/// Exit code of a process that ended on a fatal failure.
pub const EXIT_FAILURE: i32 = 1;

/// Why a process of the application ends.
#[derive(Clone, Copy, Debug, PartialEq, Eq)]
pub enum Termination {
    /// The running instance closed its last window.
    WindowsClosed,
    /// A secondary launch tried to forward its event to the running
    /// instance; `delivered` says whether the event got there.
    Forwarded { delivered: bool },
    /// A failure that the process cannot run on from, such as the main
    /// window not coming into being.
    Aborted,
}

/// The exit code for `termination`. A secondary launch ends normally
/// whether or not its event was delivered: it never stays to open a window
/// of its own.
pub fn exit_code(termination: Termination) -> (code: i32)
    ensures
        code == if termination is Aborted {
            EXIT_FAILURE
        } else {
            EXIT_SUCCESS
        },
{
    match termination {
        Termination::Aborted => EXIT_FAILURE,
        _ => EXIT_SUCCESS,
    }
}

/// Whether `termination` is to be reported in the log: a fatal failure is,
/// and so is a launch event that could not be delivered.
pub fn is_reported(termination: Termination) -> (reported: bool)
    ensures
        reported == match termination {
            Termination::WindowsClosed => false,
            Termination::Forwarded { delivered } => !delivered,
            Termination::Aborted => true,
        },
{
    match termination {
        Termination::WindowsClosed => false,
        Termination::Forwarded { delivered } => !delivered,
        Termination::Aborted => true,
    }
}

} // verus!
