use optiflow::plugin::{standard_registry, Plugin, PluginRegistry};

#[test]
fn standard_registration_order() {
    let r = standard_registry();
    assert_eq!(r.len(), 5);
    assert_eq!(r.plugin_at(0), Plugin::Shell);
    assert_eq!(r.plugin_at(1), Plugin::Dialog);
    assert_eq!(r.plugin_at(2), Plugin::Fs);
    assert_eq!(r.plugin_at(3), Plugin::Os);
    assert_eq!(r.plugin_at(4), Plugin::Store);
}

#[test]
fn all_plugins_active_after_standard_registration() {
    let r = standard_registry();
    assert!(r.is_active(Plugin::Shell));
    assert!(r.is_active(Plugin::Dialog));
    assert!(r.is_active(Plugin::Fs));
    assert!(r.is_active(Plugin::Os));
    assert!(r.is_active(Plugin::Store));
}

#[test]
fn empty_registry_has_no_active_plugin() {
    let r = PluginRegistry::new();
    assert_eq!(r.len(), 0);
    assert!(!r.is_active(Plugin::Shell));
    assert!(!r.is_active(Plugin::Store));
}

#[test]
fn registration_order_does_not_change_active_set() {
    let forward = standard_registry();
    let mut backward = PluginRegistry::new();
    backward.register(Plugin::Store);
    backward.register(Plugin::Os);
    backward.register(Plugin::Fs);
    backward.register(Plugin::Dialog);
    backward.register(Plugin::Shell);
    let all = [Plugin::Shell, Plugin::Dialog, Plugin::Fs, Plugin::Os, Plugin::Store];
    for p in all {
        assert_eq!(forward.is_active(p), backward.is_active(p));
        assert!(backward.is_active(p));
    }
}

#[test]
fn repeated_registration_keeps_plugin_active() {
    let mut r = PluginRegistry::new();
    r.register(Plugin::Fs);
    r.register(Plugin::Fs);
    assert_eq!(r.len(), 2);
    assert!(r.is_active(Plugin::Fs));
    assert!(!r.is_active(Plugin::Shell));
}
