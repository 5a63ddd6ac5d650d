use vstd::prelude::*;
use crate::clipboard::Clipboard;

verus! {

/// Application-wide operations. The application is already running when the
/// native view calls in, so starting and stopping it are no-ops.
#[derive(Clone, Copy, Debug, PartialEq, Eq, Structural)]
pub struct Application;

impl Application {
    pub fn init() {
    }

    /// Terminating is left to the host platform.
    pub fn quit() {
    }

    /// A handle to the system clipboard.
    pub fn clipboard() -> (r: Clipboard)
        ensures
            r == Clipboard,
    {
        Clipboard
    }
}

} // verus!
