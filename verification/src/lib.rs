//! Verified core of the OptiFlow desktop application bootstrapper.
//!
//! The bootstrapper assembles a desktop application: it registers a fixed
//! set of capability plugins, runs a one-time setup hook that gives the
//! window labeled "main" its display title, and decides how the process
//! ends when the run loop reports failure. The decisions made along that
//! linear startup sequence are implemented and proved here; the host
//! framework that owns the windows and the event loop is driven by an
//! unverified shell around this crate.

pub mod boot;
pub mod plugin;
pub mod setup;
pub mod window;
