use optiflow::boot::{abort_message, boot, exit_decision, ExitDecision};
use optiflow::plugin::Plugin;
use optiflow::window::WindowTable;

#[test]
fn failed_run_loop_aborts() {
    assert_eq!(exit_decision(false), ExitDecision::Abort);
}

#[test]
fn completed_run_loop_exits_normally() {
    assert_eq!(exit_decision(true), ExitDecision::Exit);
}

#[test]
fn abort_diagnostic_text() {
    assert_eq!(
        abort_message().as_str(),
        "error while running OptiFlow - Line Optimizer"
    );
}

#[test]
fn boot_with_main_window_titles_it_and_exits() {
    let mut table = WindowTable::new();
    assert!(table.add_window("main".to_string(), "untitled".to_string()));
    let report = boot(&mut table, true);
    assert_eq!(report.decision, ExitDecision::Exit);
    assert_eq!(report.plugins.len(), 5);
    assert!(report.plugins.is_active(Plugin::Shell));
    assert!(report.plugins.is_active(Plugin::Dialog));
    assert!(report.plugins.is_active(Plugin::Fs));
    assert!(report.plugins.is_active(Plugin::Os));
    assert!(report.plugins.is_active(Plugin::Store));
    assert_eq!(table.title_at(0).as_str(), "OptiFlow - Line Optimizer");
}

#[test]
fn boot_without_main_window_still_completes() {
    let mut table = WindowTable::new();
    let report = boot(&mut table, true);
    assert_eq!(report.decision, ExitDecision::Exit);
    assert_eq!(table.window_count(), 0);
    assert_eq!(report.plugins.len(), 5);
}

#[test]
fn boot_with_failed_run_loop_aborts() {
    let mut table = WindowTable::new();
    assert!(table.add_window("main".to_string(), "untitled".to_string()));
    let report = boot(&mut table, false);
    assert_eq!(report.decision, ExitDecision::Abort);
    assert_eq!(table.title_at(0).as_str(), "OptiFlow - Line Optimizer");
}
