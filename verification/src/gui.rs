//! Which user interface to run.  The environment probes and the interfaces
//! themselves live with the application.

use vstd::prelude::*;

verus! {

/// The kind of user interface to run.
#[derive(Debug, Clone, Copy, PartialEq, Eq, Structural)]
pub enum UIType {
    /// A desktop toolkit window.
    GTK,
    /// The terminal interface (fallback).
    TUI,
}

/// Picks the interface from the probed facts: a graphical display must be
/// present and the toolkit available, else the terminal interface runs.
pub fn select_ui_type(has_display: bool, gtk_available: bool) -> (t: UIType)
    ensures
        t is GTK <==> (has_display && gtk_available),
{
    if has_display && gtk_available {
        UIType::GTK
    } else {
        UIType::TUI
    }
}

/// The graphical installer.  Its window plumbing lives with the
/// application.
pub struct GTKInstaller;

impl GTKInstaller {
    pub fn new() -> GTKInstaller {
        GTKInstaller
    }
}

} // verus!
