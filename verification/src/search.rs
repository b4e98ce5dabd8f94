//! Which launcher handles a search entry: the dispatch rule of the
//! launcher overlay's search box.

use vstd::prelude::*;

use crate::text::{is_prefix_of, str_starts_with};

verus! {

/// The launchers the search box dispatches to, in the order they are
/// offered the entry.
#[derive(Clone, Copy, PartialEq, Eq, Structural, Debug)]
pub enum LauncherKind {
    /// Evaluates the entry as a calculation.
    Calculator,
    /// Sends the entry to the notes application.
    Notes,
    /// Fuzzy-searches the installed applications; takes anything.
    AppSearch,
}

/// The launcher that handles the entry: "= " asks the calculator,
/// "; " the notes, and everything else searches the applications.
pub fn select_launcher(text: &str) -> (r: LauncherKind)
    ensures
        is_prefix_of("= "@, text@) ==> r == LauncherKind::Calculator,
        !is_prefix_of("= "@, text@) && is_prefix_of("; "@, text@) ==> r == LauncherKind::Notes,
        !is_prefix_of("= "@, text@) && !is_prefix_of("; "@, text@) ==> r
            == LauncherKind::AppSearch,
{
    if str_starts_with(text, "= ") {
        LauncherKind::Calculator
    } else if str_starts_with(text, "; ") {
        LauncherKind::Notes
    } else {
        LauncherKind::AppSearch
    }
}

} // verus!
