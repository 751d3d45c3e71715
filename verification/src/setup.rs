//! The one-time setup hook.
//!
//! The hook runs once, after the windows are constructed and before the
//! event loop starts. It looks up the window labeled "main" and gives it
//! the product's display title; when no such window exists it does
//! nothing, and in neither case can it fail.

use vstd::prelude::*;

use crate::window::{has_label, title_of, WindowTable};

verus! {

/// The label under which the front end creates the primary window. The
/// lookup in the setup hook goes by this name.
pub fn main_window_label() -> (label: String)
    ensures
        label@ == "main"@,
{
    "main".to_owned()
}

/// The display title the setup hook gives the primary window.
pub fn startup_title() -> (title: String)
    ensures
        title@ == "OptiFlow - Line Optimizer"@,
{
    "OptiFlow - Line Optimizer".to_owned()
}

/// The setup hook. A window labeled "main" ends up titled
/// "OptiFlow - Line Optimizer"; every other window, and a table without
/// a "main" window, is left untouched. The hook is total: a missing
/// "main" window is not an error.
pub fn run_setup(windows: &mut WindowTable)
    requires
        old(windows).wf(),
    ensures
        final(windows).wf(),
        has_label(old(windows)@, "main"@) ==> has_label(final(windows)@, "main"@)
            && title_of(final(windows)@, "main"@) == "OptiFlow - Line Optimizer"@,
        !has_label(old(windows)@, "main"@) ==> final(windows)@ == old(windows)@,
        final(windows)@.len() == old(windows)@.len(),
        forall|j: int|
            0 <= j < old(windows)@.len() ==> final(windows)@[j].label@ == old(windows)@[j].label@,
        forall|j: int|
            0 <= j < old(windows)@.len() && old(windows)@[j].label@ != "main"@
                ==> final(windows)@[j] == old(windows)@[j],
{
    let label = main_window_label();
    let title = startup_title();
    let _ = windows.set_title(&label, title);
}

} // verus!
