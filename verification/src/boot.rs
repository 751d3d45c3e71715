//! The startup sequence and its one fatal error.
//!
//! Startup is linear: register the plugins, run the setup hook, enter
//! the run loop. The only observable error is a run loop that fails to
//! start, and it is fatal by design: the process aborts with a fixed
//! diagnostic rather than continuing. This module decides between a
//! normal exit and that abort, and assembles the whole sequence.

use vstd::prelude::*;

use crate::plugin::{required_plugins, standard_registry, PluginRegistry};
use crate::setup::run_setup;
use crate::window::{has_label, title_of, WindowTable};

verus! {

/// How the process ends once the run loop has returned.
#[derive(Clone, Copy, PartialEq, Eq, Structural, Debug)]
pub enum ExitDecision {
    /// The run loop started and the application exited normally.
    Exit,
    /// The run loop failed to start: abort with the fixed diagnostic.
    Abort,
}

/// The diagnostic the process aborts with when the run loop fails.
pub fn abort_message() -> (msg: String)
    ensures
        msg@ == "error while running OptiFlow - Line Optimizer"@,
{
    "error while running OptiFlow - Line Optimizer".to_owned()
}

/// Decides how the process ends. A run loop that reported failure
/// aborts the process; one that ran to completion exits normally. No
/// retry and no third outcome exist.
pub fn exit_decision(run_ok: bool) -> (d: ExitDecision)
    ensures
        d == (if run_ok {
            ExitDecision::Exit
        } else {
            ExitDecision::Abort
        }),
{
    if run_ok {
        ExitDecision::Exit
    } else {
        ExitDecision::Abort
    }
}

/// What a completed startup decided: the plugins registered, and how
/// the process ends.
pub struct BootReport {
    /// The plugin registrations, in the order they were made.
    pub plugins: PluginRegistry,
    /// Normal exit or fatal abort.
    pub decision: ExitDecision,
}

/// The whole startup sequence, given the windows the framework
/// constructed and whether the run loop started: the five plugins are
/// registered in their fixed order, the "main" window (when present)
/// gets the product title and nothing else changes, and a failed run
/// loop turns into an abort.
pub fn boot(windows: &mut WindowTable, run_ok: bool) -> (r: BootReport)
    requires
        old(windows).wf(),
    ensures
        r.plugins@ == required_plugins(),
        final(windows).wf(),
        has_label(old(windows)@, "main"@) ==> has_label(final(windows)@, "main"@)
            && title_of(final(windows)@, "main"@) == "OptiFlow - Line Optimizer"@,
        !has_label(old(windows)@, "main"@) ==> final(windows)@ == old(windows)@,
        final(windows)@.len() == old(windows)@.len(),
        forall|j: int|
            0 <= j < old(windows)@.len() && old(windows)@[j].label@ != "main"@
                ==> final(windows)@[j] == old(windows)@[j],
        r.decision == (if run_ok {
            ExitDecision::Exit
        } else {
            ExitDecision::Abort
        }),
{
    let plugins = standard_registry();
    run_setup(windows);
    let decision = exit_decision(run_ok);
    BootReport { plugins, decision }
}

} // verus!
